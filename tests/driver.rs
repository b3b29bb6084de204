use codex_autonomy::driver::{
    budget_seconds, checkpoint_file_name, completion_text, render_context, session_info_json,
    should_continue, AutonomousSession, CompletionError, Role,
};
use codex_autonomy::protocol::{Event, EventMsg};
use codex_autonomy::turn::{TurnCollector, TurnResult};

fn ev(msg: EventMsg) -> Event {
    Event { id: "sub".to_string(), msg }
}

fn run_turn(events: Vec<EventMsg>) -> TurnResult {
    let mut c = TurnCollector::new("sub".to_string(), String::new(), String::new());
    for (i, m) in events.into_iter().enumerate() {
        c.observe(ev(m), i as u64);
    }
    c.finish()
}

fn session() -> AutonomousSession {
    AutonomousSession::new(
        "sys".to_string(),
        "cfg".to_string(),
        "init {config_yaml}".to_string(),
        "cont {config_yaml}|{context}".to_string(),
    )
}

#[test]
fn two_turns_keep_one_user_and_one_reply_per_turn() {
    let mut s = session();
    let p1 = s.begin_iteration();
    assert_eq!(p1, "init cfg");
    s.record_user_prompt("do one".to_string());
    s.record_turn(run_turn(vec![
        EventMsg::AgentMessage { message: "reply one".to_string() },
        EventMsg::TaskComplete { last_agent_message: None },
    ]));
    assert_eq!(s.checkpoint(), "iteration_001.json");
    let p2 = s.begin_iteration();
    assert_eq!(p2, "cont cfg|SYSTEM: sys\n\nUSER: do one\n\nASSISTANT: reply one\n\n");
    s.record_user_prompt("do two".to_string());
    s.record_turn(run_turn(vec![
        EventMsg::ExecCommandBegin {
            call_id: "1".to_string(),
            command: vec!["ls".to_string()],
            cwd: "/".to_string(),
        },
        EventMsg::ExecCommandEnd {
            call_id: "1".to_string(),
            stdout: "f".to_string(),
            stderr: String::new(),
            exit_code: 0,
        },
        EventMsg::AgentMessage { message: "reply two".to_string() },
        EventMsg::TaskComplete { last_agent_message: None },
    ]));
    assert_eq!(s.checkpoint(), "iteration_002.json");
    let conversation: Vec<(Role, String)> = s
        .log
        .iter()
        .filter(|e| {
            (e.role == Role::User || e.role == Role::Assistant)
                && e.tool_calls.is_none()
                && e.reasoning.is_none()
        })
        .map(|e| (e.role, e.content.clone()))
        .collect();
    assert_eq!(
        conversation,
        vec![
            (Role::User, "do one".to_string()),
            (Role::Assistant, "reply one".to_string()),
            (Role::User, "do two".to_string()),
            (Role::Assistant, "reply two".to_string()),
        ]
    );
    assert_eq!(s.log.len(), 7);
    assert_eq!(s.log[4].tool_calls.as_ref().map(|c| c.len()), Some(1));
    assert_eq!(s.log[5].role, Role::Tool);
    assert_eq!(s.log[5].tool_call_id.as_deref(), Some("exec_1"));
}

#[test]
fn checkpoints_are_numbered_and_grow() {
    let mut s = session();
    let mut sizes = vec![s.log.len()];
    for n in 1..=3u32 {
        s.begin_iteration();
        s.record_user_prompt(format!("p{n}"));
        s.record_turn(run_turn(vec![
            EventMsg::AgentMessage { message: format!("r{n}") },
            EventMsg::TaskComplete { last_agent_message: None },
        ]));
        assert_eq!(s.checkpoint(), format!("iteration_{:03}.json", n));
        sizes.push(s.log.len());
    }
    assert_eq!(s.last_checkpoint, 3);
    assert!(sizes.windows(2).all(|w| w[0] < w[1]));
    assert!(s.final_checkpoint().is_none());
}

#[test]
fn interrupted_iteration_gets_its_checkpoint_at_the_end() {
    let mut s = session();
    s.begin_iteration();
    s.record_user_prompt("p".to_string());
    assert_eq!(s.final_checkpoint().as_deref(), Some("iteration_001.json"));
    assert!(s.final_checkpoint().is_none());
}

#[test]
fn reasoning_and_tool_calls_render_in_context() {
    let mut s = session();
    s.begin_iteration();
    s.record_user_prompt("u".to_string());
    s.record_turn(run_turn(vec![
        EventMsg::AgentReasoning { text: "why".to_string() },
        EventMsg::TaskStarted,
        EventMsg::AgentMessage { message: "done".to_string() },
        EventMsg::TaskComplete { last_agent_message: None },
    ]));
    assert_eq!(
        s.context,
        "SYSTEM: sys\n\nUSER: u\n\nASSISTANT_REASONING: why\n\nASSISTANT_TOOL_CALLS: [\n  {\n    \"function\": {\n      \"arguments\": \"{}\",\n      \"name\": \"task_started\"\n    },\n    \"id\": \"event_taskstarted_1\",\n    \"type\": \"system\"\n  }\n]\n\nASSISTANT: done\n\n"
    );
    assert_eq!(render_context(&s.log), s.context);
}

#[test]
fn checkpoint_names_pad_to_three_digits() {
    assert_eq!(checkpoint_file_name(0), "iteration_000.json");
    assert_eq!(checkpoint_file_name(42), "iteration_042.json");
    assert_eq!(checkpoint_file_name(1234), "iteration_1234.json");
}

#[test]
fn session_info_is_pretty_json() {
    assert_eq!(
        session_info_json(100, 2, 30, 130),
        "{\n  \"current_iteration\": 2,\n  \"elapsed_seconds\": 30,\n  \"last_updated\": 130,\n  \"session_start\": 100\n}"
    );
}

#[test]
fn budget_and_continuation() {
    assert_eq!(budget_seconds(30), 1800);
    assert_eq!(budget_seconds(u64::MAX), u64::MAX);
    assert!(should_continue(1799, 1800));
    assert!(!should_continue(1800, 1800));
}

#[test]
fn completion_text_is_trimmed_or_an_error() {
    assert_eq!(completion_text("  go on \n".to_string()), Ok("go on".to_string()));
    assert_eq!(completion_text(String::new()), Err(CompletionError::NoOutput));
}
