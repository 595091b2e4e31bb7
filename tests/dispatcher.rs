use ess_control::dispatch::{Action, Dispatcher, Prompt};
use ess_control::request::{CommandType, ConfigAction, ConfigRequest};

const DEVICE: &str = "3bda2cb0-6e39-40ca-84de-d58b99e7e40e";

fn dispatcher() -> Dispatcher {
    Dispatcher::new("ess-manager".to_string(), DEVICE.to_string())
}

fn sends(a: &Action) -> usize {
    match a {
        Action::PublishControl { .. } | Action::RequestConfig { .. } | Action::PublishConfig { .. } => 1,
        _ => 0,
    }
}

fn single_item(r: &ConfigRequest) -> (String, String) {
    assert_eq!(r.items.len(), 1);
    (r.items[0].key.clone(), r.items[0].value.clone())
}

#[test]
fn soc_max_then_number_publishes_one_command() {
    let mut d = dispatcher();
    let a1 = d.step("soc_max\n", false);
    assert!(matches!(a1, Action::AskSocValue { command: CommandType::SetMaxSoc }));
    assert_eq!(d.prompt, Prompt::SocValue { command: CommandType::SetMaxSoc });
    let a2 = d.step("42.5\n", "42.5".parse::<f32>().is_ok());
    match &a2 {
        Action::PublishControl { order } => {
            assert_eq!(order.command, CommandType::SetMaxSoc);
            assert_eq!(order.device, DEVICE);
        }
        other => panic!("unexpected {:?}", other),
    }
    assert_eq!(sends(&a1) + sends(&a2), 1);
    assert_eq!(d.prompt, Prompt::Command);
}

#[test]
fn soc_min_then_number_targets_min() {
    let mut d = dispatcher();
    d.step("  soc_min  ", false);
    match d.step("10", true) {
        Action::PublishControl { order } => assert_eq!(order.command, CommandType::SetMinSoc),
        other => panic!("unexpected {:?}", other),
    }
}

#[test]
fn non_number_is_rejected_without_sending() {
    for cmd in ["soc_max", "soc_min"] {
        let mut d = dispatcher();
        let a1 = d.step(cmd, false);
        let a2 = d.step("abc\n", "abc".parse::<f32>().is_ok());
        match &a2 {
            Action::RejectSocValue { text } => assert_eq!(text, "abc\n"),
            other => panic!("unexpected {:?}", other),
        }
        assert_eq!(sends(&a1) + sends(&a2), 0);
        assert_eq!(d.prompt, Prompt::Command);
    }
}

#[test]
fn get_builds_read_request_in_service_namespace() {
    let mut d = dispatcher();
    match d.step("get foo\n", false) {
        Action::RequestConfig { request } => {
            assert_eq!(request.action, ConfigAction::Read);
            assert_eq!(single_item(&request), ("ess-manager.foo".to_string(), String::new()));
        }
        other => panic!("unexpected {:?}", other),
    }
    assert_eq!(d.prompt, Prompt::Command);
}

#[test]
fn set_builds_one_write_request_without_reply() {
    let mut d = dispatcher();
    let a = d.step("set foo bar\n", false);
    match &a {
        Action::PublishConfig { request } => {
            assert_eq!(request.action, ConfigAction::Write);
            assert_eq!(single_item(request), ("ess-manager.foo".to_string(), "bar".to_string()));
        }
        other => panic!("unexpected {:?}", other),
    }
    assert_eq!(sends(&a), 1);
}

#[test]
fn set_ignores_words_after_the_value() {
    let mut d = dispatcher();
    match d.step("set  a   b c", false) {
        Action::PublishConfig { request } => {
            assert_eq!(single_item(&request), ("ess-manager.a".to_string(), "b".to_string()))
        }
        other => panic!("unexpected {:?}", other),
    }
}

#[test]
fn set_without_value_is_a_usage_error() {
    let mut d = dispatcher();
    assert!(matches!(d.step("set foo\n", false), Action::UsageError));
    assert_eq!(d.prompt, Prompt::Command);
}

#[test]
fn exit_quits() {
    let mut d = dispatcher();
    assert!(matches!(d.step("exit\n", false), Action::Quit));
}

#[test]
fn print_accepts_surrounding_whitespace() {
    let mut d = dispatcher();
    assert!(matches!(d.step(" \tp \r\n", false), Action::ShowStatus));
    assert!(matches!(d.step("\u{3000}p", false), Action::ShowStatus));
}

#[test]
fn unknown_lines_change_nothing() {
    for (line, shown) in [("", ""), ("foo\n", "foo"), ("get\tfoo", "get\tfoo"), ("pp", "pp")] {
        let mut d = dispatcher();
        match d.step(line, true) {
            Action::Unknown { text } => assert_eq!(text, shown),
            other => panic!("unexpected {:?} for {:?}", other, line),
        }
        assert_eq!(d.prompt, Prompt::Command);
        assert_eq!(d.service, "ess-manager");
        assert_eq!(d.device, DEVICE);
    }
}
