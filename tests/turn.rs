use codex_autonomy::protocol::{Event, EventMsg, Op, ReviewDecision, TokenUsage};
use codex_autonomy::turn::{CallKind, PendingApproval, TurnCollector, TurnStep};

fn ev(id: &str, msg: EventMsg) -> Event {
    Event { id: id.to_string(), msg }
}

fn collector() -> TurnCollector {
    TurnCollector::new(
        "s1".to_string(),
        "cmd {command} in {cwd}: {reason}".to_string(),
        "tool {tool} with {arguments}".to_string(),
    )
}

fn message(text: &str) -> EventMsg {
    EventMsg::AgentMessage { message: text.to_string() }
}

fn reasoning(text: &str) -> EventMsg {
    EventMsg::AgentReasoning { text: text.to_string() }
}

fn complete() -> EventMsg {
    EventMsg::TaskComplete { last_agent_message: None }
}

#[test]
fn messages_are_joined_by_newlines_in_arrival_order() {
    let mut c = collector();
    assert!(matches!(c.observe(ev("s1", message("first")), 1), TurnStep::Continue));
    assert!(matches!(c.observe(ev("other", message("stale")), 2), TurnStep::Continue));
    assert!(matches!(c.observe(ev("s1", message("second")), 3), TurnStep::Continue));
    assert!(matches!(c.observe(ev("s1", complete()), 4), TurnStep::Finished));
    let r = c.finish();
    assert_eq!(r.content, "first\nsecond");
    assert!(r.reasoning.is_none());
    assert!(r.tool_calls.is_empty());
    assert!(r.tool_responses.is_empty());
    assert!(r.error.is_none());
}

#[test]
fn reasoning_is_trimmed_concatenation_when_present() {
    let mut c = collector();
    c.observe(ev("s1", reasoning("  think ")), 1);
    c.observe(ev("s1", reasoning("more")), 2);
    c.observe(ev("s1", complete()), 3);
    let r = c.finish();
    assert_eq!(r.reasoning.as_deref(), Some("think \nmore"));
    assert_eq!(r.content, "");
}

#[test]
fn blank_reasoning_event_still_counts_as_reasoning() {
    let mut c = collector();
    c.observe(ev("s1", reasoning("   ")), 1);
    c.observe(ev("s1", EventMsg::Error { message: "boom".to_string() }), 2);
    let r = c.finish();
    assert_eq!(r.reasoning.as_deref(), Some(""));
    assert_eq!(r.error.as_deref(), Some("boom"));
}

#[test]
fn reasoning_of_other_submissions_is_ignored() {
    let mut c = collector();
    c.observe(ev("s0", reasoning("old")), 1);
    c.observe(ev("s1", complete()), 2);
    assert!(c.finish().reasoning.is_none());
}

#[test]
fn command_pair_becomes_call_and_response() {
    let mut c = collector();
    c.observe(
        ev(
            "s1",
            EventMsg::ExecCommandBegin {
                call_id: "c7".to_string(),
                command: vec!["ls".to_string(), "-la".to_string()],
                cwd: "/w".to_string(),
            },
        ),
        1,
    );
    c.observe(
        ev(
            "s1",
            EventMsg::ExecCommandEnd {
                call_id: "c7".to_string(),
                stdout: "a\"b\n".to_string(),
                stderr: String::new(),
                exit_code: -1,
            },
        ),
        2,
    );
    c.observe(ev("s1", complete()), 3);
    let r = c.finish();
    assert_eq!(r.tool_calls.len(), 1);
    assert_eq!(r.tool_calls[0].id, "exec_c7");
    assert_eq!(r.tool_calls[0].kind, CallKind::Function);
    assert_eq!(r.tool_calls[0].name, "bash");
    assert_eq!(r.tool_calls[0].arguments, "{\"command\":[\"ls\",\"-la\"]}");
    assert_eq!(r.tool_responses.len(), 1);
    assert_eq!(r.tool_responses[0].tool_call_id, "exec_c7");
    assert_eq!(
        r.tool_responses[0].content,
        "{\"exit_code\":-1,\"stderr\":\"\",\"stdout\":\"a\\\"b\\n\"}"
    );
}

#[test]
fn runtime_notices_are_stamped_system_calls() {
    let mut c = collector();
    c.observe(ev("s1", EventMsg::TaskStarted), 1700000000123);
    c.observe(
        ev(
            "s1",
            EventMsg::TokenCount {
                usage: TokenUsage {
                    input_tokens: 10,
                    cached_input_tokens: None,
                    output_tokens: 5,
                    reasoning_output_tokens: Some(2),
                    total_tokens: 15,
                },
            },
        ),
        7,
    );
    c.observe(ev("s1", EventMsg::BackgroundEvent { message: "hi".to_string() }), 8);
    c.observe(ev("s1", EventMsg::Other { kind: "Unknown".to_string() }), 9);
    c.observe(ev("s1", complete()), 10);
    let r = c.finish();
    assert_eq!(r.tool_calls.len(), 3);
    assert_eq!(r.tool_calls[0].id, "event_taskstarted_1700000000123");
    assert_eq!(r.tool_calls[0].kind, CallKind::System);
    assert_eq!(r.tool_calls[0].arguments, "{}");
    assert_eq!(r.tool_calls[1].id, "event_tokencount_7");
    assert_eq!(
        r.tool_calls[1].arguments,
        "{\"input_tokens\":10,\"cached_input_tokens\":null,\"output_tokens\":5,\"reasoning_output_tokens\":2,\"total_tokens\":15}"
    );
    assert_eq!(r.tool_calls[2].name, "background_event");
    assert_eq!(r.tool_calls[2].arguments, "{\"message\":\"hi\"}");
}

#[test]
fn ordinary_tool_call_is_forwarded() {
    let mut c = collector();
    let step = c.observe(
        ev(
            "s1",
            EventMsg::McpToolCallBegin {
                call_id: "t1".to_string(),
                server: "srv".to_string(),
                tool: "search".to_string(),
                arguments: None,
            },
        ),
        1,
    );
    assert!(matches!(step, TurnStep::Continue));
    c.observe(
        ev("s1", EventMsg::McpToolCallEnd { call_id: "t1".to_string(), result: Err("bad".to_string()) }),
        2,
    );
    c.observe(ev("s1", complete()), 3);
    let r = c.finish();
    assert_eq!(r.tool_calls[0].id, "t1");
    assert_eq!(r.tool_calls[0].name, "search");
    assert_eq!(r.tool_calls[0].arguments, "null");
    assert_eq!(r.tool_responses[0].content, "Error: bad");
}

fn high_risk_call(c: &mut TurnCollector) -> String {
    let args: serde_json::Value = serde_json::from_str("{\"title\":\"x\"}").unwrap();
    match c.observe(
        ev(
            "s1",
            EventMsg::McpToolCallBegin {
                call_id: "b1".to_string(),
                server: "srv".to_string(),
                tool: "bugcrowd_submit".to_string(),
                arguments: Some(args),
            },
        ),
        1,
    ) {
        TurnStep::ToolApproval { prompt } => prompt,
        _ => panic!("high-risk tool call was not held for approval"),
    }
}

#[test]
fn denied_high_risk_call_is_replaced_by_one_denial() {
    let mut c = collector();
    let prompt = high_risk_call(&mut c);
    assert_eq!(prompt, "tool bugcrowd_submit with {\n  \"title\": \"x\"\n}");
    c.resolve_tool_approval(Ok("DENY - out of scope".to_string()));
    c.observe(ev("s1", complete()), 2);
    let r = c.finish();
    assert!(r.tool_calls.iter().all(|t| t.id != "b1"));
    assert_eq!(r.tool_responses.len(), 1);
    assert_eq!(r.tool_responses[0].tool_call_id, "b1");
    assert_eq!(
        r.tool_responses[0].content,
        "\u{274C} Bugcrowd submission denied by security review: out of scope"
    );
}

#[test]
fn unclear_answer_on_high_risk_call_denies() {
    let mut c = collector();
    high_risk_call(&mut c);
    c.resolve_tool_approval(Ok("hmm".to_string()));
    c.observe(ev("s1", complete()), 2);
    let r = c.finish();
    assert!(r.tool_calls.is_empty());
    assert_eq!(r.tool_responses.len(), 1);
}

#[test]
fn failed_decision_on_high_risk_call_denies() {
    let mut c = collector();
    high_risk_call(&mut c);
    c.resolve_tool_approval(Err("no output".to_string()));
    c.observe(ev("s1", complete()), 2);
    let r = c.finish();
    assert!(r.tool_calls.is_empty());
    assert_eq!(
        r.tool_responses[0].content,
        "\u{274C} Bugcrowd submission failed due to approval error: no output"
    );
}

#[test]
fn approved_high_risk_call_is_forwarded() {
    let mut c = collector();
    high_risk_call(&mut c);
    c.resolve_tool_approval(Ok("APPROVE - fine".to_string()));
    c.observe(ev("s1", complete()), 2);
    let r = c.finish();
    assert_eq!(r.tool_calls.len(), 1);
    assert_eq!(r.tool_calls[0].id, "b1");
    assert_eq!(r.tool_calls[0].arguments, "{\"title\":\"x\"}");
    assert!(r.tool_responses.is_empty());
}

#[test]
fn command_approval_records_request_and_decision() {
    let mut c = collector();
    let step = c.observe(
        ev(
            "s1",
            EventMsg::ExecApprovalRequest {
                command: vec!["rm".to_string(), "x".to_string()],
                cwd: "/w".to_string(),
                reason: None,
            },
        ),
        55,
    );
    match step {
        TurnStep::CommandApproval { prompt } => {
            assert_eq!(prompt, "cmd [\"rm\", \"x\"] in \"/w\": No reason provided")
        }
        _ => panic!("approval request was not handed to the decision service"),
    }
    assert!(matches!(c.pending, Some(PendingApproval::Command { .. })));
    let op = c.resolve_command_approval(Ok("approve".to_string()));
    match op {
        Op::ExecApproval { id, decision } => {
            assert_eq!(id, "s1");
            assert_eq!(decision, ReviewDecision::Approved);
        }
        _ => panic!("no approval operation"),
    }
    c.observe(ev("s1", complete()), 56);
    let r = c.finish();
    assert_eq!(r.tool_calls[0].id, "approval_55");
    assert_eq!(r.tool_calls[0].name, "request_approval");
    assert_eq!(
        r.tool_calls[0].arguments,
        "{\"command\":[\"rm\",\"x\"],\"cwd\":\"/w\",\"reason\":null}"
    );
    assert_eq!(r.tool_responses[0].tool_call_id, "approval_55");
    assert_eq!(
        r.tool_responses[0].content,
        "{\"decision\":\"approved\",\"llm_response\":\"\u{2705} Approved by external LLM\"}"
    );
}

#[test]
fn command_approval_failure_denies() {
    let mut c = collector();
    c.observe(
        ev(
            "s1",
            EventMsg::ExecApprovalRequest { command: vec![], cwd: "/".to_string(), reason: None },
        ),
        1,
    );
    match c.resolve_command_approval(Err("down".to_string())) {
        Op::ExecApproval { decision, .. } => assert_eq!(decision, ReviewDecision::Denied),
        _ => panic!("no approval operation"),
    }
}

#[test]
fn patch_events_pair_up() {
    let mut c = collector();
    let changes: serde_json::Value = serde_json::from_str("{}").unwrap();
    c.observe(
        ev("s1", EventMsg::PatchApplyBegin { call_id: "p".to_string(), auto_approved: true, changes }),
        1,
    );
    c.observe(
        ev(
            "s1",
            EventMsg::PatchApplyEnd {
                call_id: "p".to_string(),
                stdout: "ok".to_string(),
                stderr: String::new(),
                success: true,
            },
        ),
        2,
    );
    c.observe(ev("s1", complete()), 3);
    let r = c.finish();
    assert_eq!(r.tool_calls[0].id, "patch_p");
    assert_eq!(
        r.tool_calls[0].arguments,
        "{\"call_id\":\"p\",\"auto_approved\":true,\"changes\":{}}"
    );
    assert_eq!(r.tool_responses[0].tool_call_id, "patch_p");
    assert_eq!(
        r.tool_responses[0].content,
        "{\"call_id\":\"p\",\"stdout\":\"ok\",\"stderr\":\"\",\"success\":true}"
    );
}

#[test]
fn command_approval_needs_the_keyword_first() {
    let mut c = collector();
    c.observe(
        ev(
            "s1",
            EventMsg::ExecApprovalRequest { command: vec![], cwd: "/".to_string(), reason: None },
        ),
        3,
    );
    match c.resolve_command_approval(Ok("I do not approve".to_string())) {
        Op::ExecApproval { decision, .. } => assert_eq!(decision, ReviewDecision::Denied),
        _ => panic!("no approval operation"),
    }
    c.observe(ev("s1", complete()), 4);
    let r = c.finish();
    assert_eq!(
        r.tool_responses[0].content,
        "{\"decision\":\"denied\",\"llm_response\":\"\u{274C} Denied by external LLM\"}"
    );
}
