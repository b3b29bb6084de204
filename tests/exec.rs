use codex_autonomy::exec::{
    accept_stdin_prompt, default_instance_id, last_message_action, prepend_config_flags,
    relay_decision, resolve_prompt_arg, sandbox_choice, AfterTurn, ExecSession,
    LastMessageAction, PromptSource, RelayAction, RelayWake, SandboxChoice,
};
use codex_autonomy::protocol::EventMsg;

#[test]
fn prompt_argument_or_stdin() {
    assert!(matches!(resolve_prompt_arg(Some("hi".to_string()), true), PromptSource::Given(p) if p == "hi"));
    assert!(matches!(resolve_prompt_arg(Some("-".to_string()), true), PromptSource::ReadStdin { announce: false }));
    assert!(matches!(resolve_prompt_arg(None, false), PromptSource::ReadStdin { announce: true }));
    assert!(matches!(resolve_prompt_arg(None, true), PromptSource::Missing));
}

#[test]
fn blank_stdin_prompt_is_refused() {
    assert_eq!(accept_stdin_prompt(" \n".to_string()), None);
    assert_eq!(accept_stdin_prompt("do x\n".to_string()), Some("do x\n".to_string()));
}

#[test]
fn sandbox_follows_flags() {
    assert_eq!(sandbox_choice(true, true), SandboxChoice::WorkspaceWrite);
    assert_eq!(sandbox_choice(false, true), SandboxChoice::DangerFullAccess);
    assert_eq!(sandbox_choice(false, false), SandboxChoice::FromConfig);
}

#[test]
fn instance_id_from_pid() {
    assert_eq!(default_instance_id(4242), "codex_4242");
}

#[test]
fn session_counts_messages_and_ends_on_completion() {
    let mut s = ExecSession::new();
    let o = s.observe(&EventMsg::AgentMessage { message: "a".to_string() });
    assert!(!o.is_last);
    s.observe(&EventMsg::AgentMessage { message: "b".to_string() });
    let o = s.observe(&EventMsg::TaskComplete { last_agent_message: Some("b".to_string()) });
    assert!(o.is_last);
    assert_eq!(o.last_message.as_deref(), Some("b"));
    assert_eq!(s.message_index, 2);
    assert_eq!(s.after_turn(true, true), AfterTurn::AwaitFollowup);
    assert_eq!(s.after_turn(false, true), AfterTurn::Stop);
    assert_eq!(s.after_turn(true, false), AfterTurn::Stop);
    s.begin_turn();
    assert_eq!(s.after_turn(true, true), AfterTurn::Stop);
}

#[test]
fn last_message_goes_to_file() {
    assert!(matches!(
        last_message_action(Some("m".to_string()), Some("f".to_string())),
        LastMessageAction::Write { path, message } if path == "f" && message == "m"
    ));
    assert!(matches!(last_message_action(None, Some("f".to_string())), LastMessageAction::Warn { .. }));
    assert!(matches!(last_message_action(Some("m".to_string()), None), LastMessageAction::Nothing));
}

#[test]
fn relay_stops_on_interrupt_or_failure() {
    assert_eq!(relay_decision(RelayWake::Interrupt), RelayAction::InterruptAndStop);
    assert_eq!(relay_decision(RelayWake::Forwarded), RelayAction::Continue);
    assert_eq!(relay_decision(RelayWake::ConsumerGone), RelayAction::Stop);
    assert_eq!(relay_decision(RelayWake::StreamFailed), RelayAction::Stop);
}

#[test]
fn root_overrides_come_first() {
    let mut sub = vec!["b=2".to_string()];
    prepend_config_flags(&mut sub, vec!["a=1".to_string(), "c=3".to_string()]);
    assert_eq!(sub, vec!["a=1".to_string(), "c=3".to_string(), "b=2".to_string()]);
}
