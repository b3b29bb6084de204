//! Folding the runtime's events for one submission into a turn: assistant text,
//! reasoning, tool calls and tool responses, with approval requests handed to the
//! decision service.
use vstd::prelude::*;
use crate::json::{
    append_vec, json_bool, json_compact, json_opt_number, json_opt_string, json_string_array,
    push_bool, push_json_string, push_number, push_opt_number, push_opt_string,
    push_signed_number, push_string_array,
};
use crate::protocol::{Event, EventMsg, Op, ReviewDecision, TokenUsage};
use crate::template::{approval_prompt, inject_approval_variables,
    inject_bugcrowd_approval_variables, tool_approval_prompt};
use crate::text::{
    append_chars, chars_of, decimal, decimal_chars, json_string_of, prefixed, same_text,
    signed_decimal, string_of, trim_chars, trimmed,
};
use crate::verdict::{command_decision, resolve_verdict, verdict_of, VerdictKind};

verus! {

/// Whether a descriptor records a function call or a runtime notice.
#[derive(PartialEq, Eq, Structural, Clone, Copy, Debug)]
pub enum CallKind {
    Function,
    System,
}

/// A tool-call descriptor in the chat-style tool-call protocol.
pub struct ToolCall {
    pub id: String,
    pub kind: CallKind,
    pub name: String,
    pub arguments: String,
}

/// A tool-call descriptor as values.
pub struct ToolCallModel {
    pub id: Seq<char>,
    pub kind: CallKind,
    pub name: Seq<char>,
    pub arguments: Seq<char>,
}

impl View for ToolCall {
    type V = ToolCallModel;

    open spec fn view(&self) -> ToolCallModel {
        ToolCallModel {
            id: self.id@,
            kind: self.kind,
            name: self.name@,
            arguments: self.arguments@,
        }
    }
}

/// A tool-response descriptor: the call it answers and its content.
pub struct ToolResponse {
    pub tool_call_id: String,
    pub content: String,
}

/// A tool-response descriptor as values.
pub struct ToolResponseModel {
    pub tool_call_id: Seq<char>,
    pub content: Seq<char>,
}

impl View for ToolResponse {
    type V = ToolResponseModel;

    open spec fn view(&self) -> ToolResponseModel {
        ToolResponseModel { tool_call_id: self.tool_call_id@, content: self.content@ }
    }
}

/// A finished turn.
pub struct TurnResult {
    pub content: String,
    pub tool_calls: Vec<ToolCall>,
    pub reasoning: Option<String>,
    pub tool_responses: Vec<ToolResponse>,
    /// The message of the error event that ended the turn, if it ended in an error.
    pub error: Option<String>,
}

/// An approval that the collector waits for before it takes the next event.
pub enum PendingApproval {
    /// A call of the high-risk tool, held back until the decision service answers.
    Tool { call_id: String, tool: String, arguments: String },
    /// A command the runtime asked about; the decision goes back under `event_id`.
    Command { event_id: String, approval_id: String },
}

/// What the driver does after the collector has taken an event.
pub enum TurnStep {
    /// Hand the collector the next event.
    Continue,
    /// Ask the decision service with `prompt`, then call `resolve_tool_approval`.
    ToolApproval { prompt: String },
    /// Ask the decision service with `prompt`, then call `resolve_command_approval`.
    CommandApproval { prompt: String },
    /// The turn is over: call `finish`.
    Finished,
}

/// The tool whose calls always need the decision service's approval.
pub open spec fn high_risk_tool() -> Seq<char> {
    "bugcrowd_submit"@
}

/// The payloads of the message events of submission `id`, in arrival order.
pub open spec fn message_payloads(id: Seq<char>, events: Seq<Event>) -> Seq<Seq<char>>
    decreases events.len(),
{
    if events.len() == 0 {
        Seq::empty()
    } else {
        let prev = message_payloads(id, events.drop_last());
        let e = events.last();
        if e.id@ == id {
            match e.msg {
                EventMsg::AgentMessage { message } => prev.push(message@),
                _ => prev,
            }
        } else {
            prev
        }
    }
}

/// The payloads of the reasoning events of submission `id`, in arrival order.
pub open spec fn reasoning_payloads(id: Seq<char>, events: Seq<Event>) -> Seq<Seq<char>>
    decreases events.len(),
{
    if events.len() == 0 {
        Seq::empty()
    } else {
        let prev = reasoning_payloads(id, events.drop_last());
        let e = events.last();
        if e.id@ == id {
            match e.msg {
                EventMsg::AgentReasoning { text } => prev.push(text@),
                _ => prev,
            }
        } else {
            prev
        }
    }
}

/// The parts, each followed by a newline.
pub open spec fn lines(parts: Seq<Seq<char>>) -> Seq<char>
    decreases parts.len(),
{
    if parts.len() == 0 {
        Seq::empty()
    } else {
        lines(parts.drop_last()) + parts.last() + seq!['\n']
    }
}

/// The arguments recorded for a shell command.
pub open spec fn exec_arguments_json(command: Seq<String>) -> Seq<char> {
    "{\"command\":"@ + json_string_array(command) + "}"@
}

/// The content recorded for a finished shell command.
pub open spec fn exec_result_json(exit_code: i32, stdout: Seq<char>, stderr: Seq<char>) -> Seq<char> {
    "{\"exit_code\":"@ + signed_decimal(exit_code as int) + ",\"stderr\":"@ + json_string_of(stderr)
        + ",\"stdout\":"@ + json_string_of(stdout) + "}"@
}

/// The arguments recorded for an approval request.
pub open spec fn approval_arguments_json(
    command: Seq<String>,
    cwd: Seq<char>,
    reason: Option<String>,
) -> Seq<char> {
    "{\"command\":"@ + json_string_array(command) + ",\"cwd\":"@ + json_string_of(cwd)
        + ",\"reason\":"@ + json_opt_string(reason) + "}"@
}

/// The arguments recorded for a token count.
pub open spec fn token_usage_json(u: TokenUsage) -> Seq<char> {
    "{\"input_tokens\":"@ + decimal(u.input_tokens as nat) + ",\"cached_input_tokens\":"@
        + json_opt_number(u.cached_input_tokens) + ",\"output_tokens\":"@ + decimal(
        u.output_tokens as nat,
    ) + ",\"reasoning_output_tokens\":"@ + json_opt_number(u.reasoning_output_tokens)
        + ",\"total_tokens\":"@ + decimal(u.total_tokens as nat) + "}"@
}

/// The arguments recorded for a background notice.
pub open spec fn background_json(message: Seq<char>) -> Seq<char> {
    "{\"message\":"@ + json_string_of(message) + "}"@
}

/// The start of the arguments recorded for a patch; serde_json's rendering of the
/// change set and a closing brace follow.
pub open spec fn patch_arguments_head(call_id: Seq<char>, auto_approved: bool) -> Seq<char> {
    "{\"call_id\":"@ + json_string_of(call_id) + ",\"auto_approved\":"@ + json_bool(auto_approved)
        + ",\"changes\":"@
}

/// The content recorded for an applied patch.
pub open spec fn patch_result_json(
    call_id: Seq<char>,
    stdout: Seq<char>,
    stderr: Seq<char>,
    success: bool,
) -> Seq<char> {
    "{\"call_id\":"@ + json_string_of(call_id) + ",\"stdout\":"@ + json_string_of(stdout)
        + ",\"stderr\":"@ + json_string_of(stderr) + ",\"success\":"@ + json_bool(success) + "}"@
}

/// The content recorded for the decision on an approval request.
pub open spec fn decision_json(d: ReviewDecision) -> Seq<char> {
    match d {
        ReviewDecision::Approved => "{\"decision\":\"approved\",\"llm_response\":\"\u{2705} Approved by external LLM\"}"@,
        ReviewDecision::Denied => "{\"decision\":\"denied\",\"llm_response\":\"\u{274C} Denied by external LLM\"}"@,
    }
}

/// The decision on a command approval, from the decision service's answer or
/// failure: only an answer read as an approval approves.
pub open spec fn decision_for(response: Result<String, String>) -> ReviewDecision {
    match response {
        Ok(text) => if verdict_of(text@).0 == VerdictKind::Approved {
            ReviewDecision::Approved
        } else {
            ReviewDecision::Denied
        },
        Err(_) => ReviewDecision::Denied,
    }
}

/// Whether an event of submission `id` adds a tool-call descriptor as soon as it is taken.
pub open spec fn adds_call(id: Seq<char>, e: Event) -> bool {
    e.id@ == id && match e.msg {
        EventMsg::ExecCommandBegin { .. } => true,
        EventMsg::McpToolCallBegin { tool, .. } => tool@ != high_risk_tool(),
        EventMsg::ExecApprovalRequest { .. } => true,
        EventMsg::TaskStarted => true,
        EventMsg::TokenCount { .. } => true,
        EventMsg::BackgroundEvent { .. } => true,
        EventMsg::PatchApplyBegin { .. } => true,
        _ => false,
    }
}

/// The descriptor that event `e`, taken at `now` milliseconds, adds. For a tool
/// call and a patch the arguments are serde_json's rendering of the runtime's value.
pub open spec fn call_fits(e: Event, now: u64, c: ToolCallModel) -> bool {
    match e.msg {
        EventMsg::ExecCommandBegin { call_id, command, .. } => c == (ToolCallModel {
            id: "exec_"@ + call_id@,
            kind: CallKind::Function,
            name: "bash"@,
            arguments: exec_arguments_json(command@),
        }),
        EventMsg::McpToolCallBegin { call_id, tool, arguments, .. } => c.id == call_id@ && c.kind
            == CallKind::Function && c.name == tool@ && (arguments is None ==> c.arguments
            == "null"@),
        EventMsg::ExecApprovalRequest { command, cwd, reason } => c == (ToolCallModel {
            id: "approval_"@ + decimal(now as nat),
            kind: CallKind::Function,
            name: "request_approval"@,
            arguments: approval_arguments_json(command@, cwd@, reason),
        }),
        EventMsg::TaskStarted => c == (ToolCallModel {
            id: "event_taskstarted_"@ + decimal(now as nat),
            kind: CallKind::System,
            name: "task_started"@,
            arguments: "{}"@,
        }),
        EventMsg::TokenCount { usage } => c == (ToolCallModel {
            id: "event_tokencount_"@ + decimal(now as nat),
            kind: CallKind::System,
            name: "token_count"@,
            arguments: token_usage_json(usage),
        }),
        EventMsg::BackgroundEvent { message } => c == (ToolCallModel {
            id: "event_background_"@ + decimal(now as nat),
            kind: CallKind::System,
            name: "background_event"@,
            arguments: background_json(message@),
        }),
        EventMsg::PatchApplyBegin { call_id, auto_approved, .. } => c.id == "patch_"@ + call_id@
            && c.kind == CallKind::Function && c.name == "apply_patch"@ && exists|changes: Seq<char>|
            c.arguments == patch_arguments_head(call_id@, auto_approved) + changes + "}"@,
        _ => false,
    }
}

/// Whether an event of submission `id` adds a tool-response descriptor.
pub open spec fn adds_response(id: Seq<char>, e: Event) -> bool {
    e.id@ == id && match e.msg {
        EventMsg::ExecCommandEnd { .. } => true,
        EventMsg::McpToolCallEnd { .. } => true,
        EventMsg::PatchApplyEnd { .. } => true,
        _ => false,
    }
}

/// The response descriptor that event `e` adds. A tool's successful result is
/// serde_json's rendering of the runtime's value.
pub open spec fn response_fits(e: Event, r: ToolResponseModel) -> bool {
    match e.msg {
        EventMsg::ExecCommandEnd { call_id, stdout, stderr, exit_code } => r == (ToolResponseModel {
            tool_call_id: "exec_"@ + call_id@,
            content: exec_result_json(exit_code, stdout@, stderr@),
        }),
        EventMsg::McpToolCallEnd { call_id, result } => r.tool_call_id == call_id@ && match result {
            Ok(_) => true,
            Err(msg) => r.content == "Error: "@ + msg@,
        },
        EventMsg::PatchApplyEnd { call_id, stdout, stderr, success } => r == (ToolResponseModel {
            tool_call_id: "patch_"@ + call_id@,
            content: patch_result_json(call_id@, stdout@, stderr@, success),
        }),
        _ => false,
    }
}

/// Whether an event of submission `id` ends the turn.
pub open spec fn ends_turn(id: Seq<char>, e: Event) -> bool {
    e.id@ == id && (e.msg is TaskComplete || e.msg is Error)
}

/// Whether an event of submission `id` is a call of the high-risk tool.
pub open spec fn is_high_risk_call(id: Seq<char>, e: Event) -> bool {
    e.id@ == id && match e.msg {
        EventMsg::McpToolCallBegin { tool, .. } => tool@ == high_risk_tool(),
        _ => false,
    }
}

/// Whether an event of submission `id` is a command approval request.
pub open spec fn is_command_request(id: Seq<char>, e: Event) -> bool {
    e.id@ == id && e.msg is ExecApprovalRequest
}

/// Collects one submission's events into a turn.
pub struct TurnCollector {
    pub submission_id: String,
    pub approval_template: String,
    pub tool_template: String,
    pub assistant: Vec<char>,
    pub reasoning: Vec<char>,
    pub saw_reasoning: bool,
    pub tool_calls: Vec<ToolCall>,
    pub tool_responses: Vec<ToolResponse>,
    pub complete: bool,
    /// The message of the error event that ended the turn.
    pub error: Option<String>,
    pub pending: Option<PendingApproval>,
    /// Every event taken so far, of any submission.
    pub events: Ghost<Seq<Event>>,
}

impl TurnCollector {
    pub open spec fn calls(&self) -> Seq<ToolCallModel> {
        self.tool_calls@.map_values(|c: ToolCall| c@)
    }

    pub open spec fn responses(&self) -> Seq<ToolResponseModel> {
        self.tool_responses@.map_values(|r: ToolResponse| r@)
    }

    /// The accumulators agree with the events taken.
    pub open spec fn wf(&self) -> bool {
        &&& self.assistant@ == lines(message_payloads(self.submission_id@, self.events@))
        &&& self.reasoning@ == lines(reasoning_payloads(self.submission_id@, self.events@))
        &&& self.saw_reasoning == (reasoning_payloads(self.submission_id@, self.events@).len() > 0)
    }

    /// The same collector but for what `observe` may change.
    pub open spec fn same_setup(&self, other: &Self) -> bool {
        &&& self.submission_id@ == other.submission_id@
        &&& self.approval_template@ == other.approval_template@
        &&& self.tool_template@ == other.tool_template@
    }

    /// An empty turn for submission `submission_id`.
    pub fn new(submission_id: String, approval_template: String, tool_template: String) -> (r: Self)
        ensures
            r.wf(),
            r.submission_id@ == submission_id@,
            r.approval_template@ == approval_template@,
            r.tool_template@ == tool_template@,
            r.events@ == Seq::<Event>::empty(),
            r.calls() == Seq::<ToolCallModel>::empty(),
            r.responses() == Seq::<ToolResponseModel>::empty(),
            !r.complete,
            r.pending is None,
            r.error is None,
    {
        let r = TurnCollector {
            submission_id,
            approval_template,
            tool_template,
            assistant: Vec::new(),
            reasoning: Vec::new(),
            saw_reasoning: false,
            tool_calls: Vec::new(),
            tool_responses: Vec::new(),
            complete: false,
            error: None,
            pending: None,
            events: Ghost(Seq::empty()),
        };
        assert(r.calls() =~= Seq::<ToolCallModel>::empty());
        assert(r.responses() =~= Seq::<ToolResponseModel>::empty());
        r
    }

    fn push_call(&mut self, c: ToolCall)
        ensures
            final(self).calls() == old(self).calls().push(c@),
            final(self).tool_responses == old(self).tool_responses,
            final(self).assistant == old(self).assistant,
            final(self).reasoning == old(self).reasoning,
            final(self).saw_reasoning == old(self).saw_reasoning,
            final(self).submission_id == old(self).submission_id,
            final(self).approval_template == old(self).approval_template,
            final(self).tool_template == old(self).tool_template,
            final(self).complete == old(self).complete,
            final(self).error == old(self).error,
            final(self).pending == old(self).pending,
            final(self).events == old(self).events,
    {
        let ghost c_view = c@;
        self.tool_calls.push(c);
        assert(self.calls() =~= old(self).calls().push(c_view));
    }

    fn push_response(&mut self, r: ToolResponse)
        ensures
            final(self).responses() == old(self).responses().push(r@),
            final(self).tool_calls == old(self).tool_calls,
            final(self).assistant == old(self).assistant,
            final(self).reasoning == old(self).reasoning,
            final(self).saw_reasoning == old(self).saw_reasoning,
            final(self).submission_id == old(self).submission_id,
            final(self).approval_template == old(self).approval_template,
            final(self).tool_template == old(self).tool_template,
            final(self).complete == old(self).complete,
            final(self).error == old(self).error,
            final(self).pending == old(self).pending,
            final(self).events == old(self).events,
    {
        let ghost r_view = r@;
        self.tool_responses.push(r);
        assert(self.responses() =~= old(self).responses().push(r_view));
    }
}

proof fn lemma_payloads_push(id: Seq<char>, events: Seq<Event>, e: Event)
    ensures
        message_payloads(id, events.push(e)) == (if e.id@ == id && e.msg is AgentMessage {
            message_payloads(id, events).push(e.msg->AgentMessage_message@)
        } else {
            message_payloads(id, events)
        }),
        reasoning_payloads(id, events.push(e)) == (if e.id@ == id && e.msg is AgentReasoning {
            reasoning_payloads(id, events).push(e.msg->AgentReasoning_text@)
        } else {
            reasoning_payloads(id, events)
        }),
{
    assert(events.push(e).drop_last() =~= events);
}

proof fn lemma_lines_push(parts: Seq<Seq<char>>, p: Seq<char>)
    ensures
        lines(parts.push(p)) == lines(parts) + p + seq!['\n'],
{
    assert(parts.push(p).drop_last() =~= parts);
}

fn exec_call(call_id: &str, command: &Vec<String>) -> (c: ToolCall)
    ensures
        c@ == (ToolCallModel {
            id: "exec_"@ + call_id@,
            kind: CallKind::Function,
            name: "bash"@,
            arguments: exec_arguments_json(command@),
        }),
{
    let mut a: Vec<char> = Vec::new();
    append_chars(&mut a, "{\"command\":");
    push_string_array(&mut a, command);
    append_chars(&mut a, "}");
    assert(a@ =~= exec_arguments_json(command@));
    ToolCall {
        id: prefixed("exec_", call_id),
        kind: CallKind::Function,
        name: string_of(&chars_of("bash")),
        arguments: string_of(&a),
    }
}

fn exec_response(call_id: &str, stdout: &str, stderr: &str, exit_code: i32) -> (r: ToolResponse)
    ensures
        r@ == (ToolResponseModel {
            tool_call_id: "exec_"@ + call_id@,
            content: exec_result_json(exit_code, stdout@, stderr@),
        }),
{
    let mut a: Vec<char> = Vec::new();
    append_chars(&mut a, "{\"exit_code\":");
    push_signed_number(&mut a, exit_code as i64);
    append_chars(&mut a, ",\"stderr\":");
    push_json_string(&mut a, stderr);
    append_chars(&mut a, ",\"stdout\":");
    push_json_string(&mut a, stdout);
    append_chars(&mut a, "}");
    assert(a@ =~= exec_result_json(exit_code, stdout@, stderr@));
    ToolResponse { tool_call_id: prefixed("exec_", call_id), content: string_of(&a) }
}

fn stamped_id(prefix: &str, now: u64) -> (r: String)
    ensures
        r@ == prefix@ + decimal(now as nat),
{
    let mut a = chars_of(prefix);
    append_vec(&mut a, &decimal_chars(now));
    string_of(&a)
}

fn approval_call(command: &Vec<String>, cwd: &str, reason: &Option<String>, now: u64) -> (c: ToolCall)
    ensures
        c@ == (ToolCallModel {
            id: "approval_"@ + decimal(now as nat),
            kind: CallKind::Function,
            name: "request_approval"@,
            arguments: approval_arguments_json(command@, cwd@, *reason),
        }),
{
    let mut a: Vec<char> = Vec::new();
    append_chars(&mut a, "{\"command\":");
    push_string_array(&mut a, command);
    append_chars(&mut a, ",\"cwd\":");
    push_json_string(&mut a, cwd);
    append_chars(&mut a, ",\"reason\":");
    push_opt_string(&mut a, reason);
    append_chars(&mut a, "}");
    assert(a@ =~= approval_arguments_json(command@, cwd@, *reason));
    ToolCall {
        id: stamped_id("approval_", now),
        kind: CallKind::Function,
        name: string_of(&chars_of("request_approval")),
        arguments: string_of(&a),
    }
}

fn token_call(usage: &TokenUsage, now: u64) -> (c: ToolCall)
    ensures
        c@ == (ToolCallModel {
            id: "event_tokencount_"@ + decimal(now as nat),
            kind: CallKind::System,
            name: "token_count"@,
            arguments: token_usage_json(*usage),
        }),
{
    let mut a: Vec<char> = Vec::new();
    append_chars(&mut a, "{\"input_tokens\":");
    push_number(&mut a, usage.input_tokens);
    append_chars(&mut a, ",\"cached_input_tokens\":");
    push_opt_number(&mut a, usage.cached_input_tokens);
    append_chars(&mut a, ",\"output_tokens\":");
    push_number(&mut a, usage.output_tokens);
    append_chars(&mut a, ",\"reasoning_output_tokens\":");
    push_opt_number(&mut a, usage.reasoning_output_tokens);
    append_chars(&mut a, ",\"total_tokens\":");
    push_number(&mut a, usage.total_tokens);
    append_chars(&mut a, "}");
    assert(a@ =~= token_usage_json(*usage));
    ToolCall {
        id: stamped_id("event_tokencount_", now),
        kind: CallKind::System,
        name: string_of(&chars_of("token_count")),
        arguments: string_of(&a),
    }
}

fn background_call(message: &str, now: u64) -> (c: ToolCall)
    ensures
        c@ == (ToolCallModel {
            id: "event_background_"@ + decimal(now as nat),
            kind: CallKind::System,
            name: "background_event"@,
            arguments: background_json(message@),
        }),
{
    let mut a: Vec<char> = Vec::new();
    append_chars(&mut a, "{\"message\":");
    push_json_string(&mut a, message);
    append_chars(&mut a, "}");
    assert(a@ =~= background_json(message@));
    ToolCall {
        id: stamped_id("event_background_", now),
        kind: CallKind::System,
        name: string_of(&chars_of("background_event")),
        arguments: string_of(&a),
    }
}

fn patch_begin_call(call_id: &str, auto_approved: bool, changes: &serde_json::Value) -> (c: ToolCall)
    ensures
        c.id@ == "patch_"@ + call_id@,
        c.kind == CallKind::Function,
        c.name@ == "apply_patch"@,
        exists|changes: Seq<char>|
            c.arguments@ == patch_arguments_head(call_id@, auto_approved) + changes + "}"@,
{
    let mut a: Vec<char> = Vec::new();
    append_chars(&mut a, "{\"call_id\":");
    push_json_string(&mut a, call_id);
    append_chars(&mut a, ",\"auto_approved\":");
    push_bool(&mut a, auto_approved);
    append_chars(&mut a, ",\"changes\":");
    let ghost head = a@;
    let c = json_compact(changes);
    append_chars(&mut a, c.as_str());
    append_chars(&mut a, "}");
    assert(head =~= patch_arguments_head(call_id@, auto_approved));
    assert(a@ =~= patch_arguments_head(call_id@, auto_approved) + c@ + "}"@);
    ToolCall {
        id: prefixed("patch_", call_id),
        kind: CallKind::Function,
        name: string_of(&chars_of("apply_patch")),
        arguments: string_of(&a),
    }
}

fn patch_end_response(call_id: &str, stdout: &str, stderr: &str, success: bool) -> (r: ToolResponse)
    ensures
        r@ == (ToolResponseModel {
            tool_call_id: "patch_"@ + call_id@,
            content: patch_result_json(call_id@, stdout@, stderr@, success),
        }),
{
    let mut a: Vec<char> = Vec::new();
    append_chars(&mut a, "{\"call_id\":");
    push_json_string(&mut a, call_id);
    append_chars(&mut a, ",\"stdout\":");
    push_json_string(&mut a, stdout);
    append_chars(&mut a, ",\"stderr\":");
    push_json_string(&mut a, stderr);
    append_chars(&mut a, ",\"success\":");
    push_bool(&mut a, success);
    append_chars(&mut a, "}");
    assert(a@ =~= patch_result_json(call_id@, stdout@, stderr@, success));
    ToolResponse { tool_call_id: prefixed("patch_", call_id), content: string_of(&a) }
}

fn optional_arguments_json(arguments: &Option<serde_json::Value>) -> (r: String)
    ensures
        arguments is None ==> r@ == "null"@,
{
    match arguments {
        Some(v) => json_compact(v),
        None => string_of(&chars_of("null")),
    }
}

/// The approval that a call of the high-risk tool waits for, as event `e` describes it.
pub open spec fn tool_pending_fits(e: Event, p: PendingApproval) -> bool {
    match (e.msg, p) {
        (
            EventMsg::McpToolCallBegin { call_id, tool, arguments, .. },
            PendingApproval::Tool { call_id: pc, tool: pt, arguments: pa },
        ) => pc@ == call_id@ && pt@ == tool@ && (arguments is None ==> pa@ == "null"@),
        _ => false,
    }
}

/// The decision request for a call of the high-risk tool, as event `e` describes it.
pub open spec fn tool_prompt_fits(template: Seq<char>, e: Event, prompt: Seq<char>) -> bool {
    match e.msg {
        EventMsg::McpToolCallBegin { tool, arguments, .. } => if arguments is None {
            prompt == tool_approval_prompt(template, tool@, "No arguments provided"@)
        } else {
            exists|a: Seq<char>| prompt == tool_approval_prompt(template, tool@, a)
        },
        _ => false,
    }
}

/// The decision request for a command, as event `e` describes it.
pub open spec fn command_prompt_fits(template: Seq<char>, e: Event, prompt: Seq<char>) -> bool {
    match e.msg {
        EventMsg::ExecApprovalRequest { command, cwd, reason } => prompt == approval_prompt(
            template,
            command@,
            cwd@,
            reason,
        ),
        _ => false,
    }
}

impl TurnResult {
    pub open spec fn calls(&self) -> Seq<ToolCallModel> {
        self.tool_calls@.map_values(|c: ToolCall| c@)
    }

    pub open spec fn responses(&self) -> Seq<ToolResponseModel> {
        self.tool_responses@.map_values(|r: ToolResponse| r@)
    }
}

impl TurnCollector {
    /// Takes the next event of the runtime's stream. Events of other submissions are
    /// only recorded as seen; for this submission's events the turn grows as the
    /// event's kind says, and an approval request makes the collector wait for the
    /// decision service.
    pub fn observe(&mut self, event: Event, now_ms: u64) -> (step: TurnStep)
        requires
            old(self).wf(),
            old(self).pending is None,
            !old(self).complete,
        ensures
            final(self).wf(),
            final(self).same_setup(old(self)),
            final(self).events@ == old(self).events@.push(event),
            final(self).complete == ends_turn(old(self).submission_id@, event),
            (step is Finished) == final(self).complete,
            final(self).error == (if event.id@ == old(self).submission_id@ && event.msg is Error {
                Some(event.msg->Error_message)
            } else {
                old(self).error
            }),
            adds_call(old(self).submission_id@, event) ==> {
                &&& final(self).calls().len() == old(self).calls().len() + 1
                &&& final(self).calls().drop_last() == old(self).calls()
                &&& call_fits(event, now_ms, final(self).calls().last())
            },
            !adds_call(old(self).submission_id@, event) ==> final(self).calls() == old(self).calls(),
            adds_response(old(self).submission_id@, event) ==> {
                &&& final(self).responses().len() == old(self).responses().len() + 1
                &&& final(self).responses().drop_last() == old(self).responses()
                &&& response_fits(event, final(self).responses().last())
            },
            !adds_response(old(self).submission_id@, event) ==> final(self).responses()
                == old(self).responses(),
            is_high_risk_call(old(self).submission_id@, event) <==> step is ToolApproval,
            is_command_request(old(self).submission_id@, event) <==> step is CommandApproval,
            step matches TurnStep::ToolApproval { prompt } ==> {
                &&& tool_prompt_fits(old(self).tool_template@, event, prompt@)
                &&& final(self).pending matches Some(p) && tool_pending_fits(event, p)
            },
            step matches TurnStep::CommandApproval { prompt } ==> {
                &&& command_prompt_fits(old(self).approval_template@, event, prompt@)
                &&& final(self).pending matches Some(PendingApproval::Command { event_id, approval_id })
                    && event_id@ == event.id@ && approval_id@ == "approval_"@ + decimal(now_ms as nat)
            },
            !(step is ToolApproval || step is CommandApproval) ==> final(self).pending is None,
    {
        let ghost id = self.submission_id@;
        let ghost seen = self.events@;
        proof {
            lemma_payloads_push(id, seen, event);
        }
        self.events = Ghost(self.events@.push(event));
        if !same_text(event.id.as_str(), self.submission_id.as_str()) {
            return TurnStep::Continue;
        }
        let Event { id: event_id, msg } = event;
        match msg {
            EventMsg::AgentMessage { message } => {
                proof {
                    lemma_lines_push(message_payloads(id, seen), message@);
                }
                append_chars(&mut self.assistant, message.as_str());
                self.assistant.push('\n');
                assert(self.assistant@ =~= lines(message_payloads(id, seen)) + message@ + seq!['\n']);
                TurnStep::Continue
            },
            EventMsg::AgentReasoning { text } => {
                proof {
                    lemma_lines_push(reasoning_payloads(id, seen), text@);
                }
                append_chars(&mut self.reasoning, text.as_str());
                self.reasoning.push('\n');
                assert(self.reasoning@ =~= lines(reasoning_payloads(id, seen)) + text@ + seq!['\n']);
                self.saw_reasoning = true;
                TurnStep::Continue
            },
            EventMsg::ExecCommandBegin { call_id, command, .. } => {
                self.push_call(exec_call(call_id.as_str(), &command));
                TurnStep::Continue
            },
            EventMsg::ExecCommandEnd { call_id, stdout, stderr, exit_code } => {
                self.push_response(
                    exec_response(call_id.as_str(), stdout.as_str(), stderr.as_str(), exit_code),
                );
                TurnStep::Continue
            },
            EventMsg::McpToolCallBegin { call_id, tool, arguments, .. } => {
                let args = optional_arguments_json(&arguments);
                if same_text(tool.as_str(), "bugcrowd_submit") {
                    let prompt = inject_bugcrowd_approval_variables(
                        self.tool_template.as_str(),
                        tool.as_str(),
                        &arguments,
                    );
                    self.pending = Some(PendingApproval::Tool { call_id, tool, arguments: args });
                    TurnStep::ToolApproval { prompt }
                } else {
                    self.push_call(
                        ToolCall { id: call_id, kind: CallKind::Function, name: tool, arguments: args },
                    );
                    TurnStep::Continue
                }
            },
            EventMsg::McpToolCallEnd { call_id, result } => {
                let content = match &result {
                    Ok(v) => json_compact(v),
                    Err(e) => prefixed("Error: ", e.as_str()),
                };
                self.push_response(ToolResponse { tool_call_id: call_id, content });
                TurnStep::Continue
            },
            EventMsg::ExecApprovalRequest { command, cwd, reason } => {
                let call = approval_call(&command, cwd.as_str(), &reason, now_ms);
                let prompt = inject_approval_variables(
                    self.approval_template.as_str(),
                    &command,
                    cwd.as_str(),
                    &reason,
                );
                self.push_call(call);
                self.pending = Some(
                    PendingApproval::Command { event_id, approval_id: stamped_id("approval_", now_ms) },
                );
                TurnStep::CommandApproval { prompt }
            },
            EventMsg::TaskStarted => {
                self.push_call(
                    ToolCall {
                        id: stamped_id("event_taskstarted_", now_ms),
                        kind: CallKind::System,
                        name: string_of(&chars_of("task_started")),
                        arguments: string_of(&chars_of("{}")),
                    },
                );
                TurnStep::Continue
            },
            EventMsg::TokenCount { usage } => {
                self.push_call(token_call(&usage, now_ms));
                TurnStep::Continue
            },
            EventMsg::BackgroundEvent { message } => {
                self.push_call(background_call(message.as_str(), now_ms));
                TurnStep::Continue
            },
            EventMsg::PatchApplyBegin { call_id, auto_approved, changes } => {
                self.push_call(patch_begin_call(call_id.as_str(), auto_approved, &changes));
                TurnStep::Continue
            },
            EventMsg::PatchApplyEnd { call_id, stdout, stderr, success } => {
                self.push_response(
                    patch_end_response(call_id.as_str(), stdout.as_str(), stderr.as_str(), success),
                );
                TurnStep::Continue
            },
            EventMsg::TaskComplete { .. } => {
                self.complete = true;
                TurnStep::Finished
            },
            EventMsg::Error { message } => {
                self.complete = true;
                self.error = Some(message);
                TurnStep::Finished
            },
            EventMsg::Other { .. } => TurnStep::Continue,
        }
    }

    /// Settles a held-back call of the high-risk tool with the decision service's
    /// answer (or its failure). An approval forwards the call; a denial or a failure
    /// records a tool response carrying the reason instead, and the call is dropped.
    pub fn resolve_tool_approval(&mut self, response: Result<String, String>)
        requires
            old(self).wf(),
            old(self).pending matches Some(PendingApproval::Tool { .. }),
        ensures
            final(self).wf(),
            final(self).same_setup(old(self)),
            final(self).events == old(self).events,
            final(self).complete == old(self).complete,
            final(self).error == old(self).error,
            final(self).pending is None,
            match old(self).pending {
                Some(PendingApproval::Tool { call_id, tool, arguments }) => match response {
                    Ok(text) => if verdict_of(text@).0 == VerdictKind::Approved {
                        &&& final(self).calls() == old(self).calls().push(
                            ToolCallModel {
                                id: call_id@,
                                kind: CallKind::Function,
                                name: tool@,
                                arguments: arguments@,
                            },
                        )
                        &&& final(self).responses() == old(self).responses()
                    } else {
                        &&& final(self).calls() == old(self).calls()
                        &&& final(self).responses() == old(self).responses().push(
                            ToolResponseModel {
                                tool_call_id: call_id@,
                                content: "\u{274C} Bugcrowd submission denied by security review: "@
                                    + verdict_of(text@).1,
                            },
                        )
                    },
                    Err(e) => {
                        &&& final(self).calls() == old(self).calls()
                        &&& final(self).responses() == old(self).responses().push(
                            ToolResponseModel {
                                tool_call_id: call_id@,
                                content: "\u{274C} Bugcrowd submission failed due to approval error: "@
                                    + e@,
                            },
                        )
                    },
                },
                _ => true,
            },
    {
        let pending = self.pending.take();
        match pending {
            Some(PendingApproval::Tool { call_id, tool, arguments }) => match response {
                Ok(text) => {
                    let verdict = resolve_verdict(text.as_str());
                    if verdict.is_approved() {
                        self.push_call(
                            ToolCall { id: call_id, kind: CallKind::Function, name: tool, arguments },
                        );
                    } else {
                        let content = prefixed(
                            "\u{274C} Bugcrowd submission denied by security review: ",
                            verdict.rationale.as_str(),
                        );
                        self.push_response(ToolResponse { tool_call_id: call_id, content });
                    }
                },
                Err(e) => {
                    let content = prefixed(
                        "\u{274C} Bugcrowd submission failed due to approval error: ",
                        e.as_str(),
                    );
                    self.push_response(ToolResponse { tool_call_id: call_id, content });
                },
            },
            _ => {},
        }
    }

    /// Settles a command approval request with the decision service's answer (or
    /// its failure), records the decision as the request's tool response, and returns
    /// the operation that hands the decision back to the runtime.
    pub fn resolve_command_approval(&mut self, response: Result<String, String>) -> (op: Op)
        requires
            old(self).wf(),
            old(self).pending matches Some(PendingApproval::Command { .. }),
        ensures
            final(self).wf(),
            final(self).same_setup(old(self)),
            final(self).events == old(self).events,
            final(self).complete == old(self).complete,
            final(self).error == old(self).error,
            final(self).pending is None,
            final(self).calls() == old(self).calls(),
            match old(self).pending {
                Some(PendingApproval::Command { event_id, approval_id }) => {
                    &&& final(self).responses() == old(self).responses().push(
                        ToolResponseModel {
                            tool_call_id: approval_id@,
                            content: decision_json(decision_for(response)),
                        },
                    )
                    &&& op == (Op::ExecApproval { id: event_id, decision: decision_for(response) })
                },
                _ => true,
            },
    {
        let decision = command_decision(&response);
        let pending = self.pending.take();
        match pending {
            Some(PendingApproval::Command { event_id, approval_id }) => {
                let content = match decision {
                    ReviewDecision::Approved => string_of(
                        &chars_of(
                            "{\"decision\":\"approved\",\"llm_response\":\"\u{2705} Approved by external LLM\"}",
                        ),
                    ),
                    ReviewDecision::Denied => string_of(
                        &chars_of(
                            "{\"decision\":\"denied\",\"llm_response\":\"\u{274C} Denied by external LLM\"}",
                        ),
                    ),
                };
                self.push_response(ToolResponse { tool_call_id: approval_id, content });
                Op::ExecApproval { id: event_id, decision }
            },
            _ => Op::Interrupt,
        }
    }

    /// The finished turn: the assistant text and the reasoning trimmed, the
    /// reasoning absent exactly when no reasoning event came, and the descriptors in
    /// the order they were recorded.
    pub fn finish(self) -> (r: TurnResult)
        requires
            self.wf(),
        ensures
            r.content@ == trimmed(lines(message_payloads(self.submission_id@, self.events@))),
            r.reasoning is None <==> reasoning_payloads(self.submission_id@, self.events@).len()
                == 0,
            r.reasoning matches Some(x) ==> x@ == trimmed(
                lines(reasoning_payloads(self.submission_id@, self.events@)),
            ),
            r.calls() == self.calls(),
            r.responses() == self.responses(),
            r.error == self.error,
    {
        let content = string_of(&trim_chars(&self.assistant));
        let reasoning = if self.saw_reasoning {
            Some(string_of(&trim_chars(&self.reasoning)))
        } else {
            None
        };
        TurnResult {
            content,
            tool_calls: self.tool_calls,
            reasoning,
            tool_responses: self.tool_responses,
            error: self.error,
        }
    }
}

} // verus!
