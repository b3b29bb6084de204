use codex_autonomy::handoff::{
    decide_followup, poll_followup, read_followup, status_json, FollowupOutcome, FollowupRead,
    HandoffStatus,
};

const TIMEOUT: u64 = 300_000;

#[test]
fn message_followup_is_consumed_and_returned() {
    let step = poll_followup(Some("{\"message\": \"X\"}"), 0, TIMEOUT);
    assert!(step.delete_file);
    assert_eq!(step.result, Some(Some("X".to_string())));
}

#[test]
fn terminate_followup_ends_the_session() {
    let step = poll_followup(Some("{\"terminate\": true}"), 0, TIMEOUT);
    assert!(step.delete_file);
    assert_eq!(step.result, Some(None));
}

#[test]
fn empty_message_ends_the_session() {
    let step = poll_followup(Some("{\"message\": \"\"}"), 0, TIMEOUT);
    assert!(step.delete_file);
    assert_eq!(step.result, Some(None));
    let step = poll_followup(Some("{\"message\": \"  \"}"), 0, TIMEOUT);
    assert_eq!(step.result, Some(None));
}

#[test]
fn no_followup_waits_then_times_out() {
    let step = poll_followup(None, 1000, TIMEOUT);
    assert!(!step.delete_file);
    assert_eq!(step.result, None);
    let step = poll_followup(None, TIMEOUT + 1, TIMEOUT);
    assert_eq!(step.result, Some(None));
}

#[test]
fn malformed_followup_is_left_for_the_writer() {
    let step = poll_followup(Some("{\"message\": "), 0, TIMEOUT);
    assert!(!step.delete_file);
    assert_eq!(step.result, None);
    assert!(matches!(read_followup("not json"), FollowupRead::Malformed));
}

#[test]
fn followup_without_known_members_is_consumed_and_ignored() {
    let step = poll_followup(Some("{\"other\": 1, \"terminate\": false}"), 0, TIMEOUT);
    assert!(step.delete_file);
    assert_eq!(step.result, None);
}

#[test]
fn message_takes_precedence_over_terminate() {
    assert!(matches!(
        decide_followup(Some("go".to_string()), Some(true)),
        FollowupOutcome::Prompt(m) if m == "go"
    ));
    assert!(matches!(decide_followup(None, Some(false)), FollowupOutcome::Ignore));
}

#[test]
fn status_record_lists_keys_in_order() {
    assert_eq!(
        status_json(HandoffStatus::WaitingForFollowup, "inst", 3, "2024-01-01T00:00:00+00:00", &Some("o3".to_string())),
        "{\n  \"instance_id\": \"inst\",\n  \"last_message_index\": 3,\n  \"model\": \"o3\",\n  \"status\": \"waiting_for_followup\",\n  \"timestamp\": \"2024-01-01T00:00:00+00:00\"\n}"
    );
    assert_eq!(
        status_json(HandoffStatus::Processing, "i", 0, "t", &None),
        "{\n  \"instance_id\": \"i\",\n  \"last_message_index\": 0,\n  \"status\": \"processing\",\n  \"timestamp\": \"t\"\n}"
    );
}
