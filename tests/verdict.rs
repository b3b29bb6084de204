use codex_autonomy::protocol::ReviewDecision;
use codex_autonomy::verdict::{command_decision, parse_approval_response, resolve_lowered, resolve_verdict, VerdictKind};

#[test]
fn approve_with_separator_takes_text_after_it() {
    let (approved, why) = parse_approval_response("APPROVE - looks fine");
    assert!(approved);
    assert_eq!(why, "looks fine");
}

#[test]
fn approve_is_case_insensitive_and_trimmed() {
    let (approved, why) = parse_approval_response("  approve: ok  ");
    assert!(approved);
    assert_eq!(why, ": ok");
}

#[test]
fn approve_in_mixed_case_without_separator_has_no_reasoning() {
    let (approved, why) = parse_approval_response("Approve it");
    assert!(approved);
    assert_eq!(why, "No reasoning provided");
}

#[test]
fn upper_case_keyword_is_found_before_lower_case() {
    let (approved, why) = parse_approval_response("APPROVE: all good");
    assert!(approved);
    assert_eq!(why, ": all good");
}

#[test]
fn deny_with_separator() {
    let (approved, why) = parse_approval_response("DENY - too risky");
    assert!(!approved);
    assert_eq!(why, "too risky");
    let v = resolve_verdict("DENY - too risky");
    assert_eq!(v.kind, VerdictKind::Denied);
}

#[test]
fn deny_lower_case_takes_text_after_keyword() {
    let (approved, why) = parse_approval_response("\n deny because scope");
    assert!(!approved);
    assert_eq!(why, "because scope");
}

#[test]
fn unclear_answer_is_denied_and_marked_unparseable() {
    let (approved, why) = parse_approval_response("  maybe later ");
    assert!(!approved);
    assert_eq!(why, "Unclear response format - auto-denied for safety: maybe later");
    assert_eq!(resolve_verdict("maybe later").kind, VerdictKind::Unparseable);
}

#[test]
fn keyword_not_at_start_is_unparseable() {
    let v = resolve_verdict("I approve");
    assert_eq!(v.kind, VerdictKind::Unparseable);
    assert!(!v.is_approved());
}

#[test]
fn empty_answer_is_unparseable() {
    let (approved, why) = parse_approval_response("");
    assert!(!approved);
    assert_eq!(why, "Unclear response format - auto-denied for safety: ");
}

#[test]
fn same_text_gives_same_verdict() {
    let a = resolve_verdict("Approve - fine");
    let b = resolve_verdict("Approve - fine");
    assert_eq!(a.kind, b.kind);
    assert_eq!(a.rationale, b.rationale);
}

#[test]
fn command_decision_looks_for_approve_anywhere() {
    assert_eq!(command_decision(&Ok("APPROVE - safe".to_string())), ReviewDecision::Approved);
    assert_eq!(command_decision(&Ok("  approve".to_string())), ReviewDecision::Approved);
    assert_eq!(command_decision(&Ok("I would APPROVE this".to_string())), ReviewDecision::Denied);
    assert_eq!(command_decision(&Ok("I do not approve".to_string())), ReviewDecision::Denied);
    assert_eq!(command_decision(&Ok("deny".to_string())), ReviewDecision::Denied);
    assert_eq!(command_decision(&Ok("no way".to_string())), ReviewDecision::Denied);
    assert_eq!(command_decision(&Err("timeout".to_string())), ReviewDecision::Denied);
}

#[test]
fn keyword_test_uses_the_lowered_text() {
    let v = resolve_lowered("APPROVE - go", "approve - go");
    assert_eq!(v.kind, VerdictKind::Approved);
    assert_eq!(v.rationale, "go");
    let v = resolve_lowered("APPROVE - go", "APPROVE - go");
    assert_eq!(v.kind, VerdictKind::Unparseable);
    let v = resolve_lowered("Deny", "deny");
    assert_eq!(v.kind, VerdictKind::Denied);
    assert_eq!(v.rationale, "No reasoning provided");
}
