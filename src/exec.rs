//! Decisions of the attended, single-prompt execution mode: where the prompt comes
//! from, which sandbox applies, what each event means for the turn, what happens
//! after a turn, and what the interrupt relay does.
use vstd::prelude::*;
use crate::json::append_vec;
use crate::protocol::EventMsg;
use crate::text::{chars_of, decimal, decimal_chars, same_text, string_of, trim, trimmed};

verus! {

/// Where the prompt comes from.
pub enum PromptSource {
    /// The prompt was given as an argument.
    Given(String),
    /// Read it from standard input; `announce` asks for a notice that input is awaited.
    ReadStdin { announce: bool },
    /// No prompt: none was given and standard input is a terminal.
    Missing,
}

/// Decides the prompt's source: an argument other than `-` is the prompt; `-`
/// forces reading standard input; without an argument standard input is read
/// unless it is a terminal.
pub fn resolve_prompt_arg(prompt: Option<String>, stdin_is_terminal: bool) -> (r: PromptSource)
    ensures
        match prompt {
            Some(p) => if p@ != "-"@ {
                r == PromptSource::Given(p)
            } else {
                r == (PromptSource::ReadStdin { announce: false })
            },
            None => if stdin_is_terminal {
                r is Missing
            } else {
                r == (PromptSource::ReadStdin { announce: true })
            },
        },
{
    match prompt {
        Some(p) => {
            if same_text(p.as_str(), "-") {
                PromptSource::ReadStdin { announce: false }
            } else {
                PromptSource::Given(p)
            }
        },
        None => {
            if stdin_is_terminal {
                PromptSource::Missing
            } else {
                PromptSource::ReadStdin { announce: true }
            }
        },
    }
}

/// A prompt read from standard input is used unless it is blank.
pub fn accept_stdin_prompt(buffer: String) -> (r: Option<String>)
    ensures
        trimmed(buffer@).len() == 0 ==> r is None,
        trimmed(buffer@).len() > 0 ==> r == Some(buffer),
{
    let t = trim(buffer.as_str());
    if t.as_str().unicode_len() == 0 {
        None
    } else {
        Some(buffer)
    }
}

/// The sandbox that the session asks for.
#[derive(PartialEq, Eq, Structural, Clone, Copy, Debug)]
pub enum SandboxChoice {
    /// Writes allowed inside the workspace.
    WorkspaceWrite,
    /// No sandbox at all.
    DangerFullAccess,
    /// Whatever the configuration says.
    FromConfig,
}

/// Full-auto mode takes the workspace-write sandbox; otherwise bypassing approvals
/// and sandbox removes the sandbox; otherwise the configuration decides.
pub fn sandbox_choice(full_auto: bool, bypass_approvals_and_sandbox: bool) -> (r: SandboxChoice)
    ensures
        r == if full_auto {
            SandboxChoice::WorkspaceWrite
        } else if bypass_approvals_and_sandbox {
            SandboxChoice::DangerFullAccess
        } else {
            SandboxChoice::FromConfig
        },
{
    if full_auto {
        SandboxChoice::WorkspaceWrite
    } else if bypass_approvals_and_sandbox {
        SandboxChoice::DangerFullAccess
    } else {
        SandboxChoice::FromConfig
    }
}

/// The instance id used when none is given: `codex_` and the process id.
pub fn default_instance_id(pid: u32) -> (r: String)
    ensures
        r@ == "codex_"@ + decimal(pid as nat),
{
    let mut out = chars_of("codex_");
    append_vec(&mut out, &decimal_chars(pid as u64));
    string_of(&out)
}

/// What one event means for the attended loop.
pub struct EventOutcome {
    /// The event ends the turn.
    pub is_last: bool,
    /// The last assistant message that the ending event carries.
    pub last_message: Option<String>,
}

/// Bookkeeping of the attended loop across turns.
pub struct ExecSession {
    /// How many assistant messages the session has seen.
    pub message_index: u64,
    /// Whether the assistant replied in the current turn.
    pub assistant_responded: bool,
}

/// What to do once a turn is over.
#[derive(PartialEq, Eq, Structural, Clone, Copy, Debug)]
pub enum AfterTurn {
    /// Wait for the supervisor's followup.
    AwaitFollowup,
    /// End the session.
    Stop,
}

impl ExecSession {
    pub fn new() -> (r: Self)
        ensures
            r.message_index == 0,
            !r.assistant_responded,
    {
        ExecSession { message_index: 0, assistant_responded: false }
    }

    /// A new turn starts.
    pub fn begin_turn(&mut self)
        ensures
            final(self).message_index == old(self).message_index,
            !final(self).assistant_responded,
    {
        self.assistant_responded = false;
    }

    /// Takes one event: an assistant message is counted, and a completion ends the
    /// turn with the last message it carries.
    pub fn observe(&mut self, msg: &EventMsg) -> (r: EventOutcome)
        requires
            old(self).message_index < u64::MAX,
        ensures
            msg is AgentMessage ==> final(self).message_index == old(self).message_index + 1
                && final(self).assistant_responded,
            !(msg is AgentMessage) ==> final(self).message_index == old(self).message_index
                && final(self).assistant_responded == old(self).assistant_responded,
            r.is_last == msg is TaskComplete,
            match msg {
                EventMsg::TaskComplete { last_agent_message } => r.last_message == *last_agent_message,
                _ => r.last_message is None,
            },
    {
        match msg {
            EventMsg::AgentMessage { .. } => {
                self.message_index = self.message_index + 1;
                self.assistant_responded = true;
                EventOutcome { is_last: false, last_message: None }
            },
            EventMsg::TaskComplete { last_agent_message } => EventOutcome {
                is_last: true,
                last_message: last_agent_message.clone(),
            },
            _ => EventOutcome { is_last: false, last_message: None },
        }
    }

    /// After a turn: wait for a followup only in followup mode, after an assistant
    /// reply, and with a session log directory to hand off through.
    pub fn after_turn(&self, wait_for_followup: bool, has_log_dir: bool) -> (r: AfterTurn)
        ensures
            (r == AfterTurn::AwaitFollowup) == (wait_for_followup && self.assistant_responded
                && has_log_dir),
    {
        if wait_for_followup && self.assistant_responded && has_log_dir {
            AfterTurn::AwaitFollowup
        } else {
            AfterTurn::Stop
        }
    }
}

/// What to do with the last assistant message when the session ends.
pub enum LastMessageAction {
    /// Write `message` to the file at `path`.
    Write { path: String, message: String },
    /// Warn that there is no message to write to `path`.
    Warn { path: String },
    /// Nothing to do.
    Nothing,
}

/// The last message goes to the requested file; without a message, a warning.
pub fn last_message_action(last_message: Option<String>, file: Option<String>) -> (r: LastMessageAction)
    ensures
        match (last_message, file) {
            (Some(m), Some(p)) => r == (LastMessageAction::Write { path: p, message: m }),
            (None, Some(p)) => r == (LastMessageAction::Warn { path: p }),
            (_, None) => r is Nothing,
        },
{
    match (last_message, file) {
        (Some(m), Some(p)) => LastMessageAction::Write { path: p, message: m },
        (None, Some(p)) => LastMessageAction::Warn { path: p },
        (_, None) => LastMessageAction::Nothing,
    }
}

/// What woke the interrupt relay.
#[derive(PartialEq, Eq, Structural, Clone, Copy, Debug)]
pub enum RelayWake {
    /// The process was interrupted.
    Interrupt,
    /// An event arrived and was handed to the consumer, who took it.
    Forwarded,
    /// An event arrived but the consumer is gone.
    ConsumerGone,
    /// Reading the event stream failed.
    StreamFailed,
}

/// What the relay does next.
#[derive(PartialEq, Eq, Structural, Clone, Copy, Debug)]
pub enum RelayAction {
    /// Submit an interrupt to the runtime and stop relaying.
    InterruptAndStop,
    /// Wait for the next wake-up.
    Continue,
    /// Stop relaying.
    Stop,
}

/// The relay's decision: an interrupt is forwarded to the runtime and ends the
/// relay; a delivered event keeps it going; a lost consumer or a failed stream ends it.
pub fn relay_decision(wake: RelayWake) -> (r: RelayAction)
    ensures
        r == match wake {
            RelayWake::Interrupt => RelayAction::InterruptAndStop,
            RelayWake::Forwarded => RelayAction::Continue,
            _ => RelayAction::Stop,
        },
{
    match wake {
        RelayWake::Interrupt => RelayAction::InterruptAndStop,
        RelayWake::Forwarded => RelayAction::Continue,
        _ => RelayAction::Stop,
    }
}

/// Puts the overrides given before the subcommand in front of the subcommand's own,
/// so that the later, more specific ones take precedence.
pub fn prepend_config_flags(subcommand_overrides: &mut Vec<String>, root_overrides: Vec<String>)
    ensures
        final(subcommand_overrides)@ == root_overrides@ + old(subcommand_overrides)@,
{
    let mut merged = root_overrides;
    let ghost root = merged@;
    let ghost rest = subcommand_overrides@;
    let mut k: usize = 0;
    while k < subcommand_overrides.len()
        invariant
            k <= subcommand_overrides@.len(),
            subcommand_overrides@ == rest,
            merged@ == root + rest.subrange(0, k as int),
        decreases subcommand_overrides@.len() - k,
    {
        merged.push(subcommand_overrides[k].clone());
        assert(merged@ =~= root + rest.subrange(0, k + 1));
        k = k + 1;
    }
    assert(rest.subrange(0, rest.len() as int) =~= rest);
    *subcommand_overrides = merged;
}

} // verus!
