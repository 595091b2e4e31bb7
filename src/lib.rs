//! The control-plane logic of an interactive client for an energy-storage
//! manager reached over a publish/subscribe bus: reading operator commands,
//! building configuration requests and control orders, naming subjects, and
//! keeping the latest published status.

pub mod dispatch;
pub mod intent;
pub mod mirror;
pub mod request;
pub mod text;
