//! The agent runtime's submission/event protocol, as far as this library reads it.
use vstd::prelude::*;

verus! {

/// JSON payloads that the runtime hands through unchanged (tool arguments, tool
/// results, patch change sets).
#[verifier::external_type_specification]
#[verifier::external_body]
pub struct ExJsonValue(serde_json::Value);

/// Token accounting reported by the runtime.
pub struct TokenUsage {
    pub input_tokens: u64,
    pub cached_input_tokens: Option<u64>,
    pub output_tokens: u64,
    pub reasoning_output_tokens: Option<u64>,
    pub total_tokens: u64,
}

/// What an event reports.
pub enum EventMsg {
    /// Assistant text.
    AgentMessage { message: String },
    /// Assistant reasoning text.
    AgentReasoning { text: String },
    /// A shell command is about to run.
    ExecCommandBegin { call_id: String, command: Vec<String>, cwd: String },
    /// A shell command finished.
    ExecCommandEnd { call_id: String, stdout: String, stderr: String, exit_code: i32 },
    /// A tool of a tool server is about to be called.
    McpToolCallBegin {
        call_id: String,
        server: String,
        tool: String,
        arguments: Option<serde_json::Value>,
    },
    /// A tool call finished, with its result or its error message.
    McpToolCallEnd { call_id: String, result: Result<serde_json::Value, String> },
    /// The runtime asks whether a command may run.
    ExecApprovalRequest { command: Vec<String>, cwd: String, reason: Option<String> },
    /// The runtime started working on a submission.
    TaskStarted,
    /// Token usage so far.
    TokenCount { usage: TokenUsage },
    /// A notice from the runtime.
    BackgroundEvent { message: String },
    /// A patch is about to be applied.
    PatchApplyBegin { call_id: String, auto_approved: bool, changes: serde_json::Value },
    /// A patch was applied.
    PatchApplyEnd { call_id: String, stdout: String, stderr: String, success: bool },
    /// The submission is done.
    TaskComplete { last_agent_message: Option<String> },
    /// The submission failed.
    Error { message: String },
    /// Any other kind of event, by its name; it is recorded only.
    Other { kind: String },
}

/// One event of the runtime's stream; `id` is the submission it belongs to.
pub struct Event {
    pub id: String,
    pub msg: EventMsg,
}

/// The decision handed back to the runtime for an approval request.
#[derive(PartialEq, Eq, Structural, Clone, Copy, Debug)]
pub enum ReviewDecision {
    Approved,
    Denied,
}

/// An input item of a user submission.
pub enum InputItem {
    Text { text: String },
    LocalImage { path: String },
}

/// An operation submitted to the runtime.
pub enum Op {
    UserInput { items: Vec<InputItem> },
    Interrupt,
    ExecApproval { id: String, decision: ReviewDecision },
}

} // verus!
