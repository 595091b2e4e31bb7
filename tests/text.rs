use ess_control::intent::{parse_intent, Intent};
use ess_control::request::{get_request, qualified_key, set_request, status_topic, ConfigAction};
use ess_control::text::{is_whitespace, same_text, split_words, starts_with_text, trimmed};

#[test]
fn words_are_split_on_any_whitespace() {
    assert_eq!(split_words("  a  bc\td\u{a0}e \n"), vec!["a", "bc", "d", "e"]);
    assert!(split_words(" \t ").is_empty());
    assert!(split_words("").is_empty());
}

#[test]
fn trimming_removes_both_ends_only() {
    assert_eq!(trimmed("  get  foo \n"), "get  foo");
    assert_eq!(trimmed("\u{2003}x\u{85}"), "x");
    assert_eq!(trimmed(" \n"), "");
}

#[test]
fn whitespace_matches_std() {
    for c in ['\t', '\n', ' ', '\u{b}', '\u{a0}', '\u{2009}', '\u{3000}', 'a', '_', '\u{200b}', '\u{180e}'] {
        assert_eq!(is_whitespace(c), c.is_whitespace(), "{:?}", c);
    }
}

#[test]
fn text_comparisons() {
    assert!(same_text("soc_max", "soc_max"));
    assert!(!same_text("soc_max", "soc_min"));
    assert!(!same_text("p", "pp"));
    assert!(starts_with_text("get x", "get "));
    assert!(!starts_with_text("get", "get "));
}

#[test]
fn intents_of_lines() {
    assert!(matches!(parse_intent("p"), Intent::PrintStatus));
    assert!(matches!(parse_intent("soc_max"), Intent::SetMaxSoc));
    assert!(matches!(parse_intent("soc_min\n"), Intent::SetMinSoc));
    assert!(matches!(parse_intent("exit"), Intent::Quit));
    assert!(matches!(parse_intent("exit now"), Intent::Unknown));
    match parse_intent("get k1 extra") {
        Intent::ConfigGet { key } => assert_eq!(key, "k1"),
        other => panic!("unexpected {:?}", other),
    }
    match parse_intent(" set k v\n") {
        Intent::ConfigSet { key, value } => assert_eq!((key.as_str(), value.as_str()), ("k", "v")),
        other => panic!("unexpected {:?}", other),
    }
    assert!(matches!(parse_intent("set k"), Intent::Malformed));
}

#[test]
fn keys_are_namespaced() {
    assert_eq!(qualified_key("ess-manager", "foo"), "ess-manager.foo");
    let g = get_request("svc", "a.b");
    assert_eq!(g.action, ConfigAction::Read);
    assert_eq!(g.items[0].key, "svc.a.b");
    assert_eq!(g.items[0].value, "");
    let s = set_request("svc", "k", "");
    assert_eq!(s.action, ConfigAction::Write);
    assert_eq!((s.items.len(), s.items[0].key.as_str()), (1, "svc.k"));
}

#[test]
fn status_topic_names_the_region() {
    assert_eq!(
        status_topic("290347ae-a0a6-4036-8d0c-0b45bd052376"),
        "opendso.290347ae-a0a6-4036-8d0c-0b45bd052376.EssAppStatus.app-status"
    );
}
