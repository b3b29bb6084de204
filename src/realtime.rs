//! The realtime transcript: for each event of a running session, the line appended
//! to the readable log and the entry added to the structured conversation, and the
//! one-time final result that tells a supervising process that the session ended.
use vstd::prelude::*;
use crate::driver::Role;
use crate::json::{append_vec, json_compact};
use crate::protocol::{Event, EventMsg};
use crate::template::{debug_list, debug_of_list, debug_of_str, debug_str};
use crate::text::{append_chars, chars_of, decimal, decimal_chars, signed_decimal,
    signed_decimal_chars, string_of};

verus! {

/// The longest output preview, in UTF-8 bytes, written to the readable log.
pub const PREVIEW_LIMIT: usize = 500;

/// What kind of event a transcript entry records, with its structured fields.
pub enum TranscriptDetail {
    Prompt,
    Message,
    ExecBegin,
    ExecEnd { exit_code: i32 },
    ToolBegin { tool_name: String, call_id: String },
    ToolEnd { call_id: String, success: bool },
    Tokens { input: u64, output: u64, total: u64 },
    Reasoning,
}

/// A transcript detail as values.
pub enum TranscriptDetailModel {
    Prompt,
    Message,
    ExecBegin,
    ExecEnd { exit_code: i32 },
    ToolBegin { tool_name: Seq<char>, call_id: Seq<char> },
    ToolEnd { call_id: Seq<char>, success: bool },
    Tokens { input: u64, output: u64, total: u64 },
    Reasoning,
}

impl View for TranscriptDetail {
    type V = TranscriptDetailModel;

    open spec fn view(&self) -> TranscriptDetailModel {
        match self {
            TranscriptDetail::Prompt => TranscriptDetailModel::Prompt,
            TranscriptDetail::Message => TranscriptDetailModel::Message,
            TranscriptDetail::ExecBegin => TranscriptDetailModel::ExecBegin,
            TranscriptDetail::ExecEnd { exit_code } => TranscriptDetailModel::ExecEnd {
                exit_code: *exit_code,
            },
            TranscriptDetail::ToolBegin { tool_name, call_id } => TranscriptDetailModel::ToolBegin {
                tool_name: tool_name@,
                call_id: call_id@,
            },
            TranscriptDetail::ToolEnd { call_id, success } => TranscriptDetailModel::ToolEnd {
                call_id: call_id@,
                success: *success,
            },
            TranscriptDetail::Tokens { input, output, total } => TranscriptDetailModel::Tokens {
                input: *input,
                output: *output,
                total: *total,
            },
            TranscriptDetail::Reasoning => TranscriptDetailModel::Reasoning,
        }
    }
}

/// An entry of the structured transcript.
pub struct TranscriptEntry {
    pub role: Role,
    pub content: String,
    pub timestamp: String,
    pub detail: TranscriptDetail,
}

/// A transcript entry as values.
pub struct TranscriptEntryModel {
    pub role: Role,
    pub content: Seq<char>,
    pub timestamp: Seq<char>,
    pub detail: TranscriptDetailModel,
}

impl View for TranscriptEntry {
    type V = TranscriptEntryModel;

    open spec fn view(&self) -> TranscriptEntryModel {
        TranscriptEntryModel {
            role: self.role,
            content: self.content@,
            timestamp: self.timestamp@,
            detail: self.detail@,
        }
    }
}

/// How a session ended.
#[derive(PartialEq, Eq, Structural, Clone, Copy, Debug)]
pub enum FinalStatus {
    Completed,
    Error,
}

/// What logging one event produced: the text to append to the readable log, and
/// the final status when the final result is to be written now.
pub struct LoggedEvent {
    pub context: String,
    pub final_status: Option<FinalStatus>,
}

/// The number of bytes of a character in UTF-8.
pub open spec fn utf8_len(c: char) -> nat {
    if (c as u32) < 0x80 {
        1
    } else if (c as u32) < 0x800 {
        2
    } else if (c as u32) < 0x10000 {
        3
    } else {
        4
    }
}

/// The number of bytes of a text in UTF-8.
pub open spec fn utf8_size(s: Seq<char>) -> nat
    decreases s.len(),
{
    if s.len() == 0 {
        0
    } else {
        utf8_len(s[0]) + utf8_size(s.drop_first())
    }
}

/// How many leading characters of `s` fit in `budget` bytes of UTF-8.
pub open spec fn fitting_chars(s: Seq<char>, budget: int) -> nat
    decreases s.len(),
{
    if s.len() == 0 || utf8_len(s[0]) > budget {
        0
    } else {
        1 + fitting_chars(s.drop_first(), budget - utf8_len(s[0]))
    }
}

/// An output preview: a text of more than five hundred bytes is cut after its last
/// whole character within the first five hundred bytes, and marked as cut.
pub open spec fn preview(s: Seq<char>) -> Seq<char> {
    if utf8_size(s) > PREVIEW_LIMIT {
        s.take(fitting_chars(s, PREVIEW_LIMIT as int) as int) + "... (truncated)"@
    } else {
        s
    }
}

fn char_utf8_len(c: char) -> (r: usize)
    ensures
        r == utf8_len(c),
{
    let x = c as u32;
    if x < 0x80 {
        1
    } else if x < 0x800 {
        2
    } else if x < 0x10000 {
        3
    } else {
        4
    }
}

pub open spec fn status_icon(ok: bool) -> Seq<char> {
    if ok {
        "\u{2705}"@
    } else {
        "\u{274C}"@
    }
}

/// The name under which an event is logged when it has no line of its own.
pub open spec fn kind_name(m: EventMsg) -> Seq<char> {
    match m {
        EventMsg::AgentMessage { .. } => "AgentMessage"@,
        EventMsg::AgentReasoning { .. } => "AgentReasoning"@,
        EventMsg::ExecCommandBegin { .. } => "ExecCommandBegin"@,
        EventMsg::ExecCommandEnd { .. } => "ExecCommandEnd"@,
        EventMsg::McpToolCallBegin { .. } => "McpToolCallBegin"@,
        EventMsg::McpToolCallEnd { .. } => "McpToolCallEnd"@,
        EventMsg::ExecApprovalRequest { .. } => "ExecApprovalRequest"@,
        EventMsg::TaskStarted => "TaskStarted"@,
        EventMsg::TokenCount { .. } => "TokenCount"@,
        EventMsg::BackgroundEvent { .. } => "BackgroundEvent"@,
        EventMsg::PatchApplyBegin { .. } => "PatchApplyBegin"@,
        EventMsg::PatchApplyEnd { .. } => "PatchApplyEnd"@,
        EventMsg::TaskComplete { .. } => "TaskComplete"@,
        EventMsg::Error { .. } => "Error"@,
        EventMsg::Other { kind } => kind@,
    }
}

/// An output block of the readable log: nothing for empty output.
pub open spec fn output_block(label: Seq<char>, s: Seq<char>) -> Seq<char> {
    if s.len() == 0 {
        Seq::empty()
    } else {
        label + preview(s) + "\n"@
    }
}

/// The readable log's text for an event, stamped with the wall-clock time `clock`.
pub open spec fn context_text(m: EventMsg, clock: Seq<char>) -> Seq<char> {
    let stamp = "["@ + clock + "] "@;
    match m {
        EventMsg::AgentMessage { message } => stamp + "ASSISTANT: "@ + message@ + "\n"@,
        EventMsg::ExecCommandBegin { command, .. } => stamp + "EXECUTING: "@ + debug_of_list(
            command@,
        ) + "\n"@,
        EventMsg::ExecCommandEnd { stdout, stderr, exit_code, .. } => stamp + "COMMAND RESULT "@
            + status_icon(exit_code == 0) + ": Exit code "@ + signed_decimal(exit_code as int)
            + "\n"@ + output_block("STDOUT: "@, stdout@) + output_block("STDERR: "@, stderr@),
        EventMsg::McpToolCallBegin { call_id, tool, .. } => stamp + "TOOL CALL: "@ + tool@ + " ("@
            + call_id@ + ")\n"@,
        EventMsg::McpToolCallEnd { call_id, result } => stamp + "TOOL RESULT "@ + status_icon(
            result is Ok,
        ) + ": "@ + call_id@ + "\n"@,
        EventMsg::TaskComplete { .. } => stamp + "\u{2705} TASK COMPLETED\n"@,
        EventMsg::Error { message } => stamp + "\u{274C} ERROR: "@ + message@ + "\n"@,
        _ => stamp + "EVENT: "@ + kind_name(m) + "\n"@,
    }
}

/// A command's output in the structured transcript: nothing for empty output.
pub open spec fn output_note(label: Seq<char>, s: Seq<char>) -> Seq<char> {
    if s.len() == 0 {
        Seq::empty()
    } else {
        label + s
    }
}

/// Whether an event adds an entry to the structured transcript.
pub open spec fn adds_entry(m: EventMsg) -> bool {
    match m {
        EventMsg::AgentMessage { .. } => true,
        EventMsg::ExecCommandBegin { .. } => true,
        EventMsg::ExecCommandEnd { .. } => true,
        EventMsg::McpToolCallBegin { .. } => true,
        EventMsg::McpToolCallEnd { .. } => true,
        EventMsg::TokenCount { .. } => true,
        EventMsg::AgentReasoning { .. } => true,
        _ => false,
    }
}

/// The entry that an event adds, stamped with `ts`. A tool's successful result is
/// serde_json's rendering of the runtime's value.
pub open spec fn entry_fits(m: EventMsg, ts: Seq<char>, e: TranscriptEntryModel) -> bool {
    e.timestamp == ts && match m {
        EventMsg::AgentMessage { message } => e.role == Role::Assistant && e.content == message@
            && e.detail == TranscriptDetailModel::Message,
        EventMsg::ExecCommandBegin { command, .. } => e.role == Role::System && e.content
            == "Executing command: "@ + debug_of_list(command@) && e.detail
            == TranscriptDetailModel::ExecBegin,
        EventMsg::ExecCommandEnd { stdout, stderr, exit_code, .. } => e.role == Role::System
            && e.content == "Command completed with exit code "@ + signed_decimal(exit_code as int)
            + output_note("\nSTDOUT: "@, stdout@) + output_note("\nSTDERR: "@, stderr@) && e.detail
            == (TranscriptDetailModel::ExecEnd { exit_code }),
        EventMsg::McpToolCallBegin { call_id, tool, .. } => e.role == Role::System && e.content
            == "Tool call: "@ + tool@ + " ("@ + call_id@ + ")"@ && e.detail
            == (TranscriptDetailModel::ToolBegin { tool_name: tool@, call_id: call_id@ }),
        EventMsg::McpToolCallEnd { call_id, result } => e.role == Role::System && e.detail == (
        TranscriptDetailModel::ToolEnd { call_id: call_id@, success: result is Ok }) && match result {
            Ok(_) => true,
            Err(msg) => e.content == "Tool call failed: "@ + debug_of_str(msg@),
        },
        EventMsg::TokenCount { usage } => e.role == Role::System && e.content
            == "Token usage - Input: "@ + decimal(usage.input_tokens as nat) + ", Output: "@
            + decimal(usage.output_tokens as nat) + ", Total: "@ + decimal(
            usage.total_tokens as nat,
        ) && e.detail == (TranscriptDetailModel::Tokens {
            input: usage.input_tokens,
            output: usage.output_tokens,
            total: usage.total_tokens,
        }),
        EventMsg::AgentReasoning { text } => e.role == Role::System && e.content
            == "Agent reasoning: "@ + text@ && e.detail == TranscriptDetailModel::Reasoning,
        _ => false,
    }
}

/// The header of the readable log.
pub open spec fn header_text(instance_id: Seq<char>, started: Seq<char>, task: Seq<char>) -> Seq<char> {
    "=== CODEX INSTANCE: "@ + instance_id + " ===\nStarted: "@ + started + "\nTask: "@ + task
        + "\n\n"@
}

/// Appends `s`'s preview: at most its first five hundred characters, marked when cut.
fn push_preview(out: &mut Vec<char>, s: &str)
    ensures
        final(out)@ == old(out)@ + preview(s@),
{
    let v = chars_of(s);
    let n = v.len();
    let ghost before = out@;
    let mut used: usize = 0;
    let mut k: usize = 0;
    assert(v@.skip(0) =~= v@);
    assert(out@ =~= before + v@.take(0));
    while k < n && used + char_utf8_len(v[k]) <= PREVIEW_LIMIT
        invariant
            n == v@.len(),
            k <= n,
            used <= PREVIEW_LIMIT,
            utf8_size(v@) == used + utf8_size(v@.skip(k as int)),
            fitting_chars(v@, PREVIEW_LIMIT as int) == k + fitting_chars(
                v@.skip(k as int),
                PREVIEW_LIMIT - used,
            ),
            out@ == before + v@.take(k as int),
        decreases n - k,
    {
        let ghost rest = v@.skip(k as int);
        assert(rest.drop_first() =~= v@.skip(k + 1));
        assert(rest[0] == v@[k as int]);
        used = used + char_utf8_len(v[k]);
        out.push(v[k]);
        assert(out@ =~= before + v@.take(k + 1));
        k = k + 1;
    }
    if k < n {
        proof {
            let rest = v@.skip(k as int);
            assert(rest[0] == v@[k as int]);
            assert(fitting_chars(rest, PREVIEW_LIMIT - used) == 0);
            assert(utf8_size(rest) >= utf8_len(rest[0]));
        }
        append_chars(out, "... (truncated)");
    } else {
        proof {
            assert(v@.skip(k as int) =~= Seq::<char>::empty());
            assert(v@.take(k as int) =~= v@);
        }
    }
    assert(out@ =~= before + preview(s@));
}

fn push_icon(out: &mut Vec<char>, ok: bool)
    ensures
        final(out)@ == old(out)@ + status_icon(ok),
{
    if ok {
        append_chars(out, "\u{2705}");
    } else {
        append_chars(out, "\u{274C}");
    }
}

fn push_kind_name(out: &mut Vec<char>, m: &EventMsg)
    ensures
        final(out)@ == old(out)@ + kind_name(*m),
{
    match m {
        EventMsg::AgentMessage { .. } => append_chars(out, "AgentMessage"),
        EventMsg::AgentReasoning { .. } => append_chars(out, "AgentReasoning"),
        EventMsg::ExecCommandBegin { .. } => append_chars(out, "ExecCommandBegin"),
        EventMsg::ExecCommandEnd { .. } => append_chars(out, "ExecCommandEnd"),
        EventMsg::McpToolCallBegin { .. } => append_chars(out, "McpToolCallBegin"),
        EventMsg::McpToolCallEnd { .. } => append_chars(out, "McpToolCallEnd"),
        EventMsg::ExecApprovalRequest { .. } => append_chars(out, "ExecApprovalRequest"),
        EventMsg::TaskStarted => append_chars(out, "TaskStarted"),
        EventMsg::TokenCount { .. } => append_chars(out, "TokenCount"),
        EventMsg::BackgroundEvent { .. } => append_chars(out, "BackgroundEvent"),
        EventMsg::PatchApplyBegin { .. } => append_chars(out, "PatchApplyBegin"),
        EventMsg::PatchApplyEnd { .. } => append_chars(out, "PatchApplyEnd"),
        EventMsg::TaskComplete { .. } => append_chars(out, "TaskComplete"),
        EventMsg::Error { .. } => append_chars(out, "Error"),
        EventMsg::Other { kind } => append_chars(out, kind.as_str()),
    }
}

/// The readable log's text for an event.
pub fn context_line(m: &EventMsg, clock: &str) -> (r: String)
    ensures
        r@ == context_text(*m, clock@),
{
    let mut out = chars_of("[");
    append_chars(&mut out, clock);
    append_chars(&mut out, "] ");
    let ghost stamp = out@;
    assert(stamp =~= "["@ + clock@ + "] "@);
    match m {
        EventMsg::AgentMessage { message } => {
            append_chars(&mut out, "ASSISTANT: ");
            append_chars(&mut out, message.as_str());
            append_chars(&mut out, "\n");
        },
        EventMsg::ExecCommandBegin { command, .. } => {
            append_chars(&mut out, "EXECUTING: ");
            let d = debug_list(command);
            append_chars(&mut out, d.as_str());
            append_chars(&mut out, "\n");
        },
        EventMsg::ExecCommandEnd { stdout, stderr, exit_code, .. } => {
            append_chars(&mut out, "COMMAND RESULT ");
            push_icon(&mut out, *exit_code == 0);
            append_chars(&mut out, ": Exit code ");
            append_vec(&mut out, &signed_decimal_chars(*exit_code as i64));
            append_chars(&mut out, "\n");
            let ghost mid = out@;
            if stdout.as_str().unicode_len() > 0 {
                append_chars(&mut out, "STDOUT: ");
                push_preview(&mut out, stdout.as_str());
                append_chars(&mut out, "\n");
            }
            assert(out@ =~= mid + output_block("STDOUT: "@, stdout@));
            let ghost mid2 = out@;
            if stderr.as_str().unicode_len() > 0 {
                append_chars(&mut out, "STDERR: ");
                push_preview(&mut out, stderr.as_str());
                append_chars(&mut out, "\n");
            }
            assert(out@ =~= mid2 + output_block("STDERR: "@, stderr@));
        },
        EventMsg::McpToolCallBegin { call_id, tool, .. } => {
            append_chars(&mut out, "TOOL CALL: ");
            append_chars(&mut out, tool.as_str());
            append_chars(&mut out, " (");
            append_chars(&mut out, call_id.as_str());
            append_chars(&mut out, ")\n");
        },
        EventMsg::McpToolCallEnd { call_id, result } => {
            append_chars(&mut out, "TOOL RESULT ");
            push_icon(&mut out, result.is_ok());
            append_chars(&mut out, ": ");
            append_chars(&mut out, call_id.as_str());
            append_chars(&mut out, "\n");
        },
        EventMsg::TaskComplete { .. } => {
            append_chars(&mut out, "\u{2705} TASK COMPLETED\n");
        },
        EventMsg::Error { message } => {
            append_chars(&mut out, "\u{274C} ERROR: ");
            append_chars(&mut out, message.as_str());
            append_chars(&mut out, "\n");
        },
        _ => {
            append_chars(&mut out, "EVENT: ");
            push_kind_name(&mut out, m);
            append_chars(&mut out, "\n");
        },
    }
    assert(out@ =~= context_text(*m, clock@));
    string_of(&out)
}

/// The structured transcript entry for an event, if it has one.
pub fn transcript_entry(m: &EventMsg, timestamp: &str) -> (r: Option<TranscriptEntry>)
    ensures
        r is Some == adds_entry(*m),
        r matches Some(e) ==> entry_fits(*m, timestamp@, e@),
{
    let ts = string_of(&chars_of(timestamp));
    match m {
        EventMsg::AgentMessage { message } => Some(
            TranscriptEntry {
                role: Role::Assistant,
                content: string_of(&chars_of(message.as_str())),
                timestamp: ts,
                detail: TranscriptDetail::Message,
            },
        ),
        EventMsg::ExecCommandBegin { command, .. } => {
            let mut c = chars_of("Executing command: ");
            let d = debug_list(command);
            append_chars(&mut c, d.as_str());
            Some(
                TranscriptEntry {
                    role: Role::System,
                    content: string_of(&c),
                    timestamp: ts,
                    detail: TranscriptDetail::ExecBegin,
                },
            )
        },
        EventMsg::ExecCommandEnd { stdout, stderr, exit_code, .. } => {
            let mut c = chars_of("Command completed with exit code ");
            append_vec(&mut c, &signed_decimal_chars(*exit_code as i64));
            let ghost head = c@;
            if stdout.as_str().unicode_len() > 0 {
                append_chars(&mut c, "\nSTDOUT: ");
                append_chars(&mut c, stdout.as_str());
            }
            assert(c@ =~= head + output_note("\nSTDOUT: "@, stdout@));
            let ghost head2 = c@;
            if stderr.as_str().unicode_len() > 0 {
                append_chars(&mut c, "\nSTDERR: ");
                append_chars(&mut c, stderr.as_str());
            }
            assert(c@ =~= head2 + output_note("\nSTDERR: "@, stderr@));
            Some(
                TranscriptEntry {
                    role: Role::System,
                    content: string_of(&c),
                    timestamp: ts,
                    detail: TranscriptDetail::ExecEnd { exit_code: *exit_code },
                },
            )
        },
        EventMsg::McpToolCallBegin { call_id, tool, .. } => {
            let mut c = chars_of("Tool call: ");
            append_chars(&mut c, tool.as_str());
            append_chars(&mut c, " (");
            append_chars(&mut c, call_id.as_str());
            append_chars(&mut c, ")");
            Some(
                TranscriptEntry {
                    role: Role::System,
                    content: string_of(&c),
                    timestamp: ts,
                    detail: TranscriptDetail::ToolBegin {
                        tool_name: string_of(&chars_of(tool.as_str())),
                        call_id: string_of(&chars_of(call_id.as_str())),
                    },
                },
            )
        },
        EventMsg::McpToolCallEnd { call_id, result } => {
            let content = match result {
                Ok(v) => {
                    let mut c = chars_of("Tool call completed: ");
                    let j = json_compact(v);
                    append_chars(&mut c, j.as_str());
                    string_of(&c)
                },
                Err(e) => {
                    let mut c = chars_of("Tool call failed: ");
                    let d = debug_str(e.as_str());
                    append_chars(&mut c, d.as_str());
                    string_of(&c)
                },
            };
            Some(
                TranscriptEntry {
                    role: Role::System,
                    content,
                    timestamp: ts,
                    detail: TranscriptDetail::ToolEnd {
                        call_id: string_of(&chars_of(call_id.as_str())),
                        success: result.is_ok(),
                    },
                },
            )
        },
        EventMsg::TokenCount { usage } => {
            let mut c = chars_of("Token usage - Input: ");
            append_vec(&mut c, &decimal_chars(usage.input_tokens));
            append_chars(&mut c, ", Output: ");
            append_vec(&mut c, &decimal_chars(usage.output_tokens));
            append_chars(&mut c, ", Total: ");
            append_vec(&mut c, &decimal_chars(usage.total_tokens));
            Some(
                TranscriptEntry {
                    role: Role::System,
                    content: string_of(&c),
                    timestamp: ts,
                    detail: TranscriptDetail::Tokens {
                        input: usage.input_tokens,
                        output: usage.output_tokens,
                        total: usage.total_tokens,
                    },
                },
            )
        },
        EventMsg::AgentReasoning { text } => {
            let mut c = chars_of("Agent reasoning: ");
            append_chars(&mut c, text.as_str());
            Some(
                TranscriptEntry {
                    role: Role::System,
                    content: string_of(&c),
                    timestamp: ts,
                    detail: TranscriptDetail::Reasoning,
                },
            )
        },
        _ => None,
    }
}

/// Keeps the transcript of a session whose events are observed as they happen.
pub struct RealtimeLogger {
    pub instance_id: String,
    pub started_at: String,
    pub conversation: Vec<TranscriptEntry>,
    /// Whether the final result has been handed out.
    pub finished: bool,
}

impl RealtimeLogger {
    pub open spec fn entries(&self) -> Seq<TranscriptEntryModel> {
        self.conversation@.map_values(|e: TranscriptEntry| e@)
    }

    /// A transcript that starts with the task's prompt, stamped with the start time.
    pub fn new(instance_id: String, initial_prompt: &str, started_at: String) -> (r: Self)
        ensures
            r.instance_id@ == instance_id@,
            r.started_at@ == started_at@,
            r.entries() == seq![
                TranscriptEntryModel {
                    role: Role::User,
                    content: initial_prompt@,
                    timestamp: started_at@,
                    detail: TranscriptDetailModel::Prompt,
                },
            ],
            !r.finished,
    {
        let mut conversation: Vec<TranscriptEntry> = Vec::new();
        conversation.push(
            TranscriptEntry {
                role: Role::User,
                content: string_of(&chars_of(initial_prompt)),
                timestamp: string_of(&chars_of(started_at.as_str())),
                detail: TranscriptDetail::Prompt,
            },
        );
        let r = RealtimeLogger { instance_id, started_at, conversation, finished: false };
        assert(r.entries() =~= seq![
            TranscriptEntryModel {
                role: Role::User,
                content: initial_prompt@,
                timestamp: started_at@,
                detail: TranscriptDetailModel::Prompt,
            },
        ]);
        r
    }

    /// The header of the readable log, given the start time as it is to be shown.
    pub fn header(&self, started: &str, initial_prompt: &str) -> (r: String)
        ensures
            r@ == header_text(self.instance_id@, started@, initial_prompt@),
    {
        let mut out = chars_of("=== CODEX INSTANCE: ");
        append_chars(&mut out, self.instance_id.as_str());
        append_chars(&mut out, " ===\nStarted: ");
        append_chars(&mut out, started);
        append_chars(&mut out, "\nTask: ");
        append_chars(&mut out, initial_prompt);
        append_chars(&mut out, "\n\n");
        assert(out@ =~= header_text(self.instance_id@, started@, initial_prompt@));
        string_of(&out)
    }

    /// Logs one event: returns the readable log's text for it, adds its transcript
    /// entry if it has one, and, on the first completion or error, asks for the
    /// final result to be written.
    pub fn log_event(&mut self, event: &Event, clock: &str, timestamp: &str) -> (r: LoggedEvent)
        ensures
            r.context@ == context_text(event.msg, clock@),
            adds_entry(event.msg) ==> {
                &&& final(self).entries().len() == old(self).entries().len() + 1
                &&& final(self).entries().drop_last() == old(self).entries()
                &&& entry_fits(event.msg, timestamp@, final(self).entries().last())
            },
            !adds_entry(event.msg) ==> final(self).entries() == old(self).entries(),
            r.final_status == (if old(self).finished {
                None
            } else {
                match event.msg {
                    EventMsg::TaskComplete { .. } => Some(FinalStatus::Completed),
                    EventMsg::Error { .. } => Some(FinalStatus::Error),
                    _ => None,
                }
            }),
            final(self).finished == (old(self).finished || event.msg is TaskComplete
                || event.msg is Error),
            final(self).instance_id == old(self).instance_id,
            final(self).started_at == old(self).started_at,
    {
        let context = context_line(&event.msg, clock);
        match transcript_entry(&event.msg, timestamp) {
            Some(e) => {
                let ghost ev = e@;
                self.conversation.push(e);
                assert(self.entries() =~= old(self).entries().push(ev));
            },
            None => {},
        }
        let status = match &event.msg {
            EventMsg::TaskComplete { .. } => Some(FinalStatus::Completed),
            EventMsg::Error { .. } => Some(FinalStatus::Error),
            _ => None,
        };
        let final_status = if self.finished {
            None
        } else {
            status
        };
        if status.is_some() {
            self.finished = true;
        }
        LoggedEvent { context, final_status }
    }
}

} // verus!
