use codex_autonomy::protocol::{Event, EventMsg, TokenUsage};
use codex_autonomy::realtime::{FinalStatus, RealtimeLogger, TranscriptDetail};

fn ev(msg: EventMsg) -> Event {
    Event { id: "1".to_string(), msg }
}

fn logger() -> RealtimeLogger {
    RealtimeLogger::new("inst".to_string(), "fix it", "2024-01-01T00:00:00+00:00".to_string())
}

#[test]
fn new_starts_with_the_prompt() {
    let l = logger();
    assert_eq!(l.conversation.len(), 1);
    assert_eq!(l.conversation[0].content, "fix it");
    assert_eq!(
        l.header("2024-01-01 00:00:00 UTC", "fix it"),
        "=== CODEX INSTANCE: inst ===\nStarted: 2024-01-01 00:00:00 UTC\nTask: fix it\n\n"
    );
}

#[test]
fn assistant_message_is_logged_both_ways() {
    let mut l = logger();
    let out = l.log_event(&ev(EventMsg::AgentMessage { message: "hi".to_string() }), "12:00:00", "ts");
    assert_eq!(out.context, "[12:00:00] ASSISTANT: hi\n");
    assert!(out.final_status.is_none());
    assert_eq!(l.conversation.len(), 2);
    assert_eq!(l.conversation[1].content, "hi");
    assert_eq!(l.conversation[1].timestamp, "ts");
}

#[test]
fn long_output_is_truncated_in_the_readable_log_only() {
    let mut l = logger();
    let long = "a".repeat(600);
    let out = l.log_event(
        &ev(EventMsg::ExecCommandEnd {
            call_id: "c".to_string(),
            stdout: long.clone(),
            stderr: "bad".to_string(),
            exit_code: 2,
        }),
        "t",
        "ts",
    );
    let expected = format!(
        "[t] COMMAND RESULT \u{274C}: Exit code 2\nSTDOUT: {}... (truncated)\nSTDERR: bad\n",
        "a".repeat(500)
    );
    assert_eq!(out.context, expected);
    assert_eq!(
        l.conversation[1].content,
        format!("Command completed with exit code 2\nSTDOUT: {}\nSTDERR: bad", long)
    );
    assert!(matches!(l.conversation[1].detail, TranscriptDetail::ExecEnd { exit_code: 2 }));
}

#[test]
fn output_of_exactly_the_limit_is_kept_whole() {
    let mut l = logger();
    let out = l.log_event(
        &ev(EventMsg::ExecCommandEnd {
            call_id: "c".to_string(),
            stdout: "b".repeat(500),
            stderr: String::new(),
            exit_code: 0,
        }),
        "t",
        "ts",
    );
    assert_eq!(out.context, format!("[t] COMMAND RESULT \u{2705}: Exit code 0\nSTDOUT: {}\n", "b".repeat(500)));
}

#[test]
fn tool_events_and_tokens() {
    let mut l = logger();
    let out = l.log_event(
        &ev(EventMsg::McpToolCallBegin {
            call_id: "k".to_string(),
            server: "s".to_string(),
            tool: "search".to_string(),
            arguments: None,
        }),
        "t",
        "ts",
    );
    assert_eq!(out.context, "[t] TOOL CALL: search (k)\n");
    assert_eq!(l.conversation[1].content, "Tool call: search (k)");
    let out = l.log_event(
        &ev(EventMsg::McpToolCallEnd { call_id: "k".to_string(), result: Err("x".to_string()) }),
        "t",
        "ts",
    );
    assert_eq!(out.context, "[t] TOOL RESULT \u{274C}: k\n");
    assert_eq!(l.conversation[2].content, "Tool call failed: \"x\"");
    let out = l.log_event(
        &ev(EventMsg::TokenCount {
            usage: TokenUsage {
                input_tokens: 1,
                cached_input_tokens: None,
                output_tokens: 2,
                reasoning_output_tokens: None,
                total_tokens: 3,
            },
        }),
        "t",
        "ts",
    );
    assert_eq!(out.context, "[t] EVENT: TokenCount\n");
    assert_eq!(l.conversation[3].content, "Token usage - Input: 1, Output: 2, Total: 3");
}

#[test]
fn other_events_only_reach_the_readable_log() {
    let mut l = logger();
    let out = l.log_event(&ev(EventMsg::TaskStarted), "t", "ts");
    assert_eq!(out.context, "[t] EVENT: TaskStarted\n");
    assert_eq!(l.conversation.len(), 1);
}

#[test]
fn final_result_is_requested_once() {
    let mut l = logger();
    let out = l.log_event(&ev(EventMsg::TaskComplete { last_agent_message: None }), "t", "ts");
    assert_eq!(out.context, "[t] \u{2705} TASK COMPLETED\n");
    assert_eq!(out.final_status, Some(FinalStatus::Completed));
    let out = l.log_event(&ev(EventMsg::Error { message: "late".to_string() }), "t", "ts");
    assert_eq!(out.context, "[t] \u{274C} ERROR: late\n");
    assert_eq!(out.final_status, None);
}

#[test]
fn error_ends_with_error_status() {
    let mut l = logger();
    let out = l.log_event(&ev(EventMsg::Error { message: "boom".to_string() }), "t", "ts");
    assert_eq!(out.final_status, Some(FinalStatus::Error));
}

#[test]
fn preview_limit_counts_utf8_bytes() {
    let mut l = logger();
    let text = "\u{e9}".repeat(300);
    let out = l.log_event(
        &ev(EventMsg::ExecCommandEnd {
            call_id: "c".to_string(),
            stdout: text,
            stderr: String::new(),
            exit_code: 0,
        }),
        "t",
        "ts",
    );
    assert_eq!(
        out.context,
        format!("[t] COMMAND RESULT \u{2705}: Exit code 0\nSTDOUT: {}... (truncated)\n", "\u{e9}".repeat(250))
    );
}

#[test]
fn preview_cuts_before_a_character_that_would_cross_the_limit() {
    let mut l = logger();
    let text = format!("{}{}", "a".repeat(499), "\u{e9}\u{e9}");
    let out = l.log_event(
        &ev(EventMsg::ExecCommandEnd {
            call_id: "c".to_string(),
            stdout: String::new(),
            stderr: text,
            exit_code: 1,
        }),
        "t",
        "ts",
    );
    assert_eq!(
        out.context,
        format!("[t] COMMAND RESULT \u{274C}: Exit code 1\nSTDERR: {}... (truncated)\n", "a".repeat(499))
    );
}
