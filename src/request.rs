use vstd::prelude::*;

verus! {

/// What a configuration request asks of the remote service.
#[derive(Clone, Copy, Debug, PartialEq, Eq, Structural)]
pub enum ConfigAction {
    /// Read the values of the listed keys (the wire action `Get`); the values
    /// sent are ignored.
    Read,
    /// Write the listed values (the wire action `Set`).
    Write,
}

/// One configuration entry: a key, already prefixed by the service name, and a value.
#[derive(Clone, Debug)]
pub struct ConfigItem {
    pub key: String,
    pub value: String,
}

impl View for ConfigItem {
    type V = (Seq<char>, Seq<char>);

    open spec fn view(&self) -> (Seq<char>, Seq<char>) {
        (self.key@, self.value@)
    }
}

/// A configuration request: an action and the entries it applies to, in order.
#[derive(Clone, Debug)]
pub struct ConfigRequest {
    pub action: ConfigAction,
    pub items: Vec<ConfigItem>,
}

impl View for ConfigRequest {
    type V = (ConfigAction, Seq<(Seq<char>, Seq<char>)>);

    open spec fn view(&self) -> (ConfigAction, Seq<(Seq<char>, Seq<char>)>) {
        (self.action, self.items@.map_values(|i: ConfigItem| i@))
    }
}

/// The kinds of control command this client sends.
#[derive(Clone, Copy, Debug, PartialEq, Eq, Structural)]
pub enum CommandType {
    /// Upper bound of the state of charge.
    SetMaxSoc,
    /// Lower bound of the state of charge.
    SetMinSoc,
}

/// A control command but for its numeric value: its kind and the device it
/// targets. The value is a floating-point number that the caller read and
/// checked, and joins it when the command is encoded.
#[derive(Clone, Debug)]
pub struct ControlOrder {
    pub command: CommandType,
    pub device: String,
}

impl View for ControlOrder {
    type V = (CommandType, Seq<char>);

    open spec fn view(&self) -> (CommandType, Seq<char>) {
        (self.command, self.device@)
    }
}

/// A configuration key in the namespace of `service`: `<service>.<key>`.
pub open spec fn qualified(service: Seq<char>, key: Seq<char>) -> Seq<char> {
    service + seq!['.'] + key
}

/// The request that reads `key` of `service`: one entry with an empty value.
pub open spec fn get_request_of(service: Seq<char>, key: Seq<char>) -> (
    ConfigAction,
    Seq<(Seq<char>, Seq<char>)>,
) {
    (ConfigAction::Read, seq![(qualified(service, key), Seq::empty())])
}

/// The request that writes `value` under `key` of `service`.
pub open spec fn set_request_of(service: Seq<char>, key: Seq<char>, value: Seq<char>) -> (
    ConfigAction,
    Seq<(Seq<char>, Seq<char>)>,
) {
    (ConfigAction::Write, seq![(qualified(service, key), value)])
}

/// The subject on which the remote service in `region` publishes its status.
pub open spec fn status_topic_of(region: Seq<char>) -> Seq<char> {
    "opendso."@ + region + ".EssAppStatus.app-status"@
}

/// `<service>.<key>`.
pub fn qualified_key(service: &str, key: &str) -> (r: String)
    ensures
        r@ == qualified(service@, key@),
{
    let mut r = service.to_owned();
    let dot = ".";
    proof {
        reveal_strlit(".");
    }
    r.append(dot);
    r.append(key);
    r
}

/// A request with the single entry `item`.
fn single(action: ConfigAction, item: ConfigItem) -> (r: ConfigRequest)
    ensures
        r@ == (action, seq![item@]),
{
    let mut items: Vec<ConfigItem> = Vec::new();
    items.push(item);
    let r = ConfigRequest { action, items };
    assert(r.items@.map_values(|i: ConfigItem| i@) =~= seq![item@]);
    r
}

/// The request that reads `key` from the configuration of `service`.
pub fn get_request(service: &str, key: &str) -> (r: ConfigRequest)
    ensures
        r@ == get_request_of(service@, key@),
{
    let item = ConfigItem { key: qualified_key(service, key), value: String::new() };
    single(ConfigAction::Read, item)
}

/// The request that writes `value` under `key` in the configuration of `service`.
pub fn set_request(service: &str, key: &str, value: &str) -> (r: ConfigRequest)
    ensures
        r@ == set_request_of(service@, key@, value@),
{
    let item = ConfigItem { key: qualified_key(service, key), value: value.to_owned() };
    single(ConfigAction::Write, item)
}

/// The subject of the status reports of the service in `region`.
pub fn status_topic(region: &str) -> (r: String)
    ensures
        r@ == status_topic_of(region@),
{
    let mut r = "opendso.".to_owned();
    r.append(region);
    r.append(".EssAppStatus.app-status");
    r
}

} // verus!
