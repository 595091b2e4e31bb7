use vstd::prelude::*;

use crate::intent::{intent_of, parse_intent, Intent, IntentModel};
use crate::request::{
    get_request, get_request_of, set_request, set_request_of, CommandType, ConfigAction,
    ConfigRequest, ControlOrder,
};
use crate::text::{trim, trim_end, trim_start, trimmed};

verus! {

/// What the dispatcher expects the next line of input to be.
#[derive(Clone, Copy, Debug, PartialEq, Eq, Structural)]
pub enum Prompt {
    /// A command.
    Command,
    /// The numeric value of a control command of this kind.
    SocValue { command: CommandType },
}

/// What the caller is to do after one line of input.
#[derive(Clone, Debug)]
pub enum Action {
    /// Read the status mirror and show it.
    ShowStatus,
    /// Ask the operator for the value of a control command of this kind.
    AskSocValue { command: CommandType },
    /// Publish a control request holding this one command, with the value that
    /// was just read; no reply is awaited.
    PublishControl { order: ControlOrder },
    /// Report that this text is not a number; nothing is sent.
    RejectSocValue { text: String },
    /// Send this request and wait for the one reply, then show it.
    RequestConfig { request: ConfigRequest },
    /// Publish this request; no reply is awaited.
    PublishConfig { request: ConfigRequest },
    /// Report that `set` needs a key and a value, and show the usage.
    UsageError,
    /// Report this unknown command, and show the usage.
    Unknown { text: String },
    /// Leave the dispatch loop.
    Quit,
}

/// The mathematical value of an [`Action`].
pub enum ActionModel {
    ShowStatus,
    AskSocValue { command: CommandType },
    PublishControl { command: CommandType, device: Seq<char> },
    RejectSocValue { text: Seq<char> },
    RequestConfig { request: (ConfigAction, Seq<(Seq<char>, Seq<char>)>) },
    PublishConfig { request: (ConfigAction, Seq<(Seq<char>, Seq<char>)>) },
    UsageError,
    Unknown { text: Seq<char> },
    Quit,
}

impl View for Action {
    type V = ActionModel;

    open spec fn view(&self) -> ActionModel {
        match self {
            Action::ShowStatus => ActionModel::ShowStatus,
            Action::AskSocValue { command } => ActionModel::AskSocValue { command: *command },
            Action::PublishControl { order } => ActionModel::PublishControl {
                command: order.command,
                device: order.device@,
            },
            Action::RejectSocValue { text } => ActionModel::RejectSocValue { text: text@ },
            Action::RequestConfig { request } => ActionModel::RequestConfig { request: request@ },
            Action::PublishConfig { request } => ActionModel::PublishConfig { request: request@ },
            Action::UsageError => ActionModel::UsageError,
            Action::Unknown { text } => ActionModel::Unknown { text: text@ },
            Action::Quit => ActionModel::Quit,
        }
    }
}

/// How many messages an action puts on the bus.
pub open spec fn sends(a: ActionModel) -> nat {
    match a {
        ActionModel::PublishControl { .. } => 1,
        ActionModel::RequestConfig { .. } => 1,
        ActionModel::PublishConfig { .. } => 1,
        _ => 0,
    }
}

/// Whether an action reports an error to the operator.
pub open spec fn reports_error(a: ActionModel) -> bool {
    match a {
        ActionModel::RejectSocValue { .. } => true,
        ActionModel::UsageError => true,
        ActionModel::Unknown { .. } => true,
        _ => false,
    }
}

/// The next prompt and the action for one line of input, given the current
/// prompt, the service whose configuration is addressed and the device that
/// control commands target. `numeric` tells whether the trimmed line reads as
/// a floating-point number; it matters only where a value is expected.
pub open spec fn next(
    prompt: Prompt,
    service: Seq<char>,
    device: Seq<char>,
    line: Seq<char>,
    numeric: bool,
) -> (Prompt, ActionModel) {
    match prompt {
        Prompt::SocValue { command } => if numeric {
            (Prompt::Command, ActionModel::PublishControl { command, device })
        } else {
            (Prompt::Command, ActionModel::RejectSocValue { text: line })
        },
        Prompt::Command => match intent_of(line) {
            IntentModel::PrintStatus => (Prompt::Command, ActionModel::ShowStatus),
            IntentModel::SetMaxSoc => (
                Prompt::SocValue { command: CommandType::SetMaxSoc },
                ActionModel::AskSocValue { command: CommandType::SetMaxSoc },
            ),
            IntentModel::SetMinSoc => (
                Prompt::SocValue { command: CommandType::SetMinSoc },
                ActionModel::AskSocValue { command: CommandType::SetMinSoc },
            ),
            IntentModel::ConfigGet { key } => (
                Prompt::Command,
                ActionModel::RequestConfig { request: get_request_of(service, key) },
            ),
            IntentModel::ConfigSet { key, value } => (
                Prompt::Command,
                ActionModel::PublishConfig { request: set_request_of(service, key, value) },
            ),
            IntentModel::Quit => (Prompt::Command, ActionModel::Quit),
            IntentModel::Malformed => (Prompt::Command, ActionModel::UsageError),
            IntentModel::Unknown => (Prompt::Command, ActionModel::Unknown { text: trim(line) }),
        },
    }
}

/// The command dispatcher: the fixed identifiers it addresses, and what it
/// expects next.
pub struct Dispatcher {
    /// The remote service; configuration keys are put in its namespace.
    pub service: String,
    /// The managed device that control commands target.
    pub device: String,
    /// What the next line of input is read as.
    pub prompt: Prompt,
}

impl Dispatcher {
    /// A dispatcher that waits for a command.
    pub fn new(service: String, device: String) -> (r: Dispatcher)
        ensures
            r.service@ == service@,
            r.device@ == device@,
            r.prompt == Prompt::Command,
    {
        Dispatcher { service, device, prompt: Prompt::Command }
    }

    /// Takes one line of input and says what to do with it. `numeric` tells
    /// whether the trimmed line reads as a floating-point number.
    pub fn step(&mut self, line: &str, numeric: bool) -> (r: Action)
        ensures
            final(self).service@ == old(self).service@,
            final(self).device@ == old(self).device@,
            (final(self).prompt, r@) == next(
                old(self).prompt,
                old(self).service@,
                old(self).device@,
                line@,
                numeric,
            ),
    {
        match self.prompt {
            Prompt::SocValue { command } => {
                self.prompt = Prompt::Command;
                if numeric {
                    Action::PublishControl {
                        order: ControlOrder { command, device: self.device.clone() },
                    }
                } else {
                    Action::RejectSocValue { text: line.to_owned() }
                }
            },
            Prompt::Command => match parse_intent(line) {
                Intent::PrintStatus => Action::ShowStatus,
                Intent::SetMaxSoc => {
                    self.prompt = Prompt::SocValue { command: CommandType::SetMaxSoc };
                    Action::AskSocValue { command: CommandType::SetMaxSoc }
                },
                Intent::SetMinSoc => {
                    self.prompt = Prompt::SocValue { command: CommandType::SetMinSoc };
                    Action::AskSocValue { command: CommandType::SetMinSoc }
                },
                Intent::ConfigGet { key } => Action::RequestConfig {
                    request: get_request(self.service.as_str(), key.as_str()),
                },
                Intent::ConfigSet { key, value } => Action::PublishConfig {
                    request: set_request(self.service.as_str(), key.as_str(), value.as_str()),
                },
                Intent::Quit => Action::Quit,
                Intent::Malformed => Action::UsageError,
                Intent::Unknown => Action::Unknown { text: trimmed(line).to_owned() },
            },
        }
    }
}

} // verus!

verus! {

/// The command that asks for a value of this kind.
pub open spec fn command_word(c: CommandType) -> Seq<char> {
    match c {
        CommandType::SetMaxSoc => "soc_max"@,
        CommandType::SetMinSoc => "soc_min"@,
    }
}

proof fn lemma_command_word_intent(c: CommandType)
    ensures
        intent_of(command_word(c)) == match c {
            CommandType::SetMaxSoc => IntentModel::SetMaxSoc,
            CommandType::SetMinSoc => IntentModel::SetMinSoc,
        },
{
    reveal_strlit("soc_max");
    reveal_strlit("soc_min");
    reveal_strlit("p");
    let w = command_word(c);
    assert(trim_start(w) == w);
    assert(trim_end(w) == w);
    assert(trim(w) == w);
    assert("soc_max"@ != "soc_min"@) by {
        assert("soc_max"@[5] != "soc_min"@[5]);
    }
}

/// Entering a command word and then a number sends exactly one message: a
/// control request with that one command, for the dispatcher's device. What
/// the command word itself is taken to be (`word_numeric`) does not matter.
pub proof fn lemma_number_sends_one_command(
    service: Seq<char>,
    device: Seq<char>,
    c: CommandType,
    word_numeric: bool,
    value: Seq<char>,
)
    ensures
        ({
            let (p1, a1) = next(Prompt::Command, service, device, command_word(c), word_numeric);
            let (p2, a2) = next(p1, service, device, value, true);
            &&& a2 == ActionModel::PublishControl { command: c, device }
            &&& sends(a1) + sends(a2) == 1
            &&& !reports_error(a1) && !reports_error(a2)
            &&& p2 == Prompt::Command
        }),
{
    lemma_command_word_intent(c);
}

/// Entering a command word and then text that is not a number sends nothing
/// and reports one error, which names that text.
pub proof fn lemma_non_number_sends_nothing(
    service: Seq<char>,
    device: Seq<char>,
    c: CommandType,
    word_numeric: bool,
    value: Seq<char>,
)
    ensures
        ({
            let (p1, a1) = next(Prompt::Command, service, device, command_word(c), word_numeric);
            let (p2, a2) = next(p1, service, device, value, false);
            &&& a2 == ActionModel::RejectSocValue { text: value }
            &&& sends(a1) + sends(a2) == 0
            &&& !reports_error(a1) && reports_error(a2)
            &&& p2 == Prompt::Command
        }),
{
    lemma_command_word_intent(c);
}

/// A line that is no command sends nothing, leaves the dispatcher waiting
/// for a command, and is reported as unknown.
pub proof fn lemma_unknown_line_changes_nothing(
    service: Seq<char>,
    device: Seq<char>,
    line: Seq<char>,
    numeric: bool,
)
    requires
        intent_of(line) == IntentModel::Unknown,
    ensures
        next(Prompt::Command, service, device, line, numeric) == (
            Prompt::Command,
            ActionModel::Unknown { text: trim(line) },
        ),
        sends(next(Prompt::Command, service, device, line, numeric).1) == 0,
        reports_error(next(Prompt::Command, service, device, line, numeric).1),
{
}

} // verus!
