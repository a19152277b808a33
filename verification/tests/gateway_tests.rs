use talos::filter::{FilterDecision, SecurityFilter};
use talos::framing::value_ends;
use talos::gateway::{action_after_answer, action_for_message, is_approval, GatewayAction};
use talos::rule::{Rule, RuleError};

#[test]
fn approval_answers() {
    assert!(is_approval("y"));
    assert!(is_approval("y\n"));
    assert!(is_approval("  YES \r\n"));
    assert!(is_approval("Yes"));
    assert!(!is_approval(""));
    assert!(!is_approval("\n"));
    assert!(!is_approval("n"));
    assert!(!is_approval("yess"));
    assert!(!is_approval("y e s"));
}

#[test]
fn non_requests_pass_raw() {
    assert!(matches!(action_for_message(None), GatewayAction::ForwardRaw));
}

#[test]
fn allowed_requests_pass_as_lines() {
    assert!(matches!(action_for_message(Some(&FilterDecision::Allow)), GatewayAction::ForwardLine));
}

#[test]
fn blocked_requests_ask_the_user() {
    let d = FilterDecision::Block("why".to_string());
    match action_for_message(Some(&d)) {
        GatewayAction::AskUser(r) => assert_eq!(r, "why"),
        _ => panic!("a blocked request must be put to the user"),
    }
}

#[test]
fn approved_requests_pass_and_refused_ones_are_answered() {
    let filter = SecurityFilter::new();
    assert!(matches!(action_after_answer(&filter, true, "1", "why"), GatewayAction::ForwardLine));
    match action_after_answer(&filter, false, "1", "why") {
        GatewayAction::Reply(text) => assert_eq!(text, filter.make_error_response("1", "why")),
        _ => panic!("a refused request must be answered"),
    }
}

#[test]
fn value_ends_splits_complete_values() {
    assert_eq!(value_ends(b""), Vec::<usize>::new());
    assert_eq!(value_ends(b"{\"a\":1}"), vec![7]);
    assert_eq!(value_ends(b"{\"a\":1}\n{\"b\":"), vec![7]);
    assert_eq!(value_ends(b"{\"a\":1}\n{\"b\":2}\n"), vec![7, 15]);
    assert_eq!(value_ends(b"1 2 "), vec![1, 3]);
    assert_eq!(value_ends(b"   "), Vec::<usize>::new());
    assert_eq!(value_ends(b"{\"a\":} {}"), Vec::<usize>::new());
}

#[test]
fn rules_compile_and_match() {
    let rule = Rule::new(r"(?i)\bdd\b").unwrap();
    assert_eq!(rule.as_str(), r"(?i)\bdd\b");
    assert!(rule.is_match("DD if=x"));
    assert!(!rule.is_match("add"));
    assert!(matches!(Rule::new("("), Err(RuleError::InvalidPattern)));
}

#[test]
fn approval_trims_unicode_whitespace() {
    assert!(is_approval("\u{3000}yes\u{a0}"));
    assert!(is_approval("\u{2028}Y\u{85}"));
    assert!(!is_approval("\u{200b}y"));
}
