//! The autonomous driver's session: the conversation log, the readable context
//! handed to the next generation step, and the numbered checkpoints.
use vstd::prelude::*;
use crate::json::{append_vec, push_json_string, push_number};
use crate::template::{driver_prompt, inject_template_variables};
use crate::text::{append_chars, chars_of, decimal, decimal_chars, json_string_of, string_of, trim, trimmed};
use crate::turn::{CallKind, ToolCall, ToolCallModel, ToolResponse, ToolResponseModel, TurnResult};

verus! {

/// Who a log entry is from.
#[derive(PartialEq, Eq, Structural, Clone, Copy, Debug)]
pub enum Role {
    System,
    User,
    Assistant,
    Tool,
}

/// An entry of the conversation log.
pub struct LogEntry {
    pub role: Role,
    pub content: String,
    pub reasoning: Option<String>,
    pub tool_calls: Option<Vec<ToolCall>>,
    pub tool_call_id: Option<String>,
}

/// A log entry as values.
pub struct LogEntryModel {
    pub role: Role,
    pub content: Seq<char>,
    pub reasoning: Option<Seq<char>>,
    pub tool_calls: Option<Seq<ToolCallModel>>,
    pub tool_call_id: Option<Seq<char>>,
}

pub open spec fn calls_view(v: Vec<ToolCall>) -> Seq<ToolCallModel> {
    v@.map_values(|c: ToolCall| c@)
}

impl View for LogEntry {
    type V = LogEntryModel;

    open spec fn view(&self) -> LogEntryModel {
        LogEntryModel {
            role: self.role,
            content: self.content@,
            reasoning: match self.reasoning {
                Some(r) => Some(r@),
                None => None,
            },
            tool_calls: match self.tool_calls {
                Some(v) => Some(calls_view(v)),
                None => None,
            },
            tool_call_id: match self.tool_call_id {
                Some(i) => Some(i@),
                None => None,
            },
        }
    }
}

/// A plain message entry.
pub open spec fn message_entry(role: Role, content: Seq<char>) -> LogEntryModel {
    LogEntryModel { role, content, reasoning: None, tool_calls: None, tool_call_id: None }
}

/// The log entry of a tool response.
pub open spec fn tool_entry(x: ToolResponseModel) -> LogEntryModel {
    LogEntryModel {
        role: Role::Tool,
        content: x.content,
        reasoning: None,
        tool_calls: None,
        tool_call_id: Some(x.tool_call_id),
    }
}

/// The log entries that one turn adds, in their causal order: the reasoning if any,
/// the tool calls if any, each tool response, then the assistant's reply.
pub open spec fn turn_entries(
    reasoning: Option<Seq<char>>,
    calls: Seq<ToolCallModel>,
    responses: Seq<ToolResponseModel>,
    content: Seq<char>,
) -> Seq<LogEntryModel> {
    let r = match reasoning {
        Some(t) => seq![
            LogEntryModel {
                role: Role::Assistant,
                content: Seq::empty(),
                reasoning: Some(t),
                tool_calls: None,
                tool_call_id: None,
            },
        ],
        None => Seq::empty(),
    };
    let c = if calls.len() > 0 {
        seq![
            LogEntryModel {
                role: Role::Assistant,
                content: Seq::empty(),
                reasoning: None,
                tool_calls: Some(calls),
                tool_call_id: None,
            },
        ]
    } else {
        Seq::empty()
    };
    let t = responses.map_values(|x: ToolResponseModel| tool_entry(x));
    r + c + t + seq![message_entry(Role::Assistant, content)]
}

/// The JSON literal of a call's kind.
pub open spec fn kind_json(k: CallKind) -> Seq<char> {
    match k {
        CallKind::Function => "\"function\""@,
        CallKind::System => "\"system\""@,
    }
}

/// A tool call as an element of a pretty-printed JSON array.
pub open spec fn pretty_call(c: ToolCallModel) -> Seq<char> {
    "  {\n    \"function\": {\n      \"arguments\": "@ + json_string_of(c.arguments)
        + ",\n      \"name\": "@ + json_string_of(c.name) + "\n    },\n    \"id\": "@
        + json_string_of(c.id) + ",\n    \"type\": "@ + kind_json(c.kind) + "\n  }"@
}

/// The elements of a pretty-printed JSON array of tool calls.
pub open spec fn pretty_call_items(cs: Seq<ToolCallModel>) -> Seq<char>
    decreases cs.len(),
{
    if cs.len() == 0 {
        Seq::empty()
    } else if cs.len() == 1 {
        pretty_call(cs[0])
    } else {
        pretty_call_items(cs.drop_last()) + ",\n"@ + pretty_call(cs.last())
    }
}

/// Tool calls as pretty-printed JSON.
pub open spec fn pretty_calls(cs: Seq<ToolCallModel>) -> Seq<char> {
    if cs.len() == 0 {
        "[]"@
    } else {
        "[\n"@ + pretty_call_items(cs) + "\n]"@
    }
}

/// How one log entry reads in the context handed to the generation service.
pub open spec fn render_entry(e: LogEntryModel) -> Seq<char> {
    match e.role {
        Role::System => "SYSTEM: "@ + e.content + "\n\n"@,
        Role::User => "USER: "@ + e.content + "\n\n"@,
        Role::Assistant => match e.reasoning {
            Some(r) => "ASSISTANT_REASONING: "@ + r + "\n\n"@,
            None => match e.tool_calls {
                Some(cs) => "ASSISTANT_TOOL_CALLS: "@ + pretty_calls(cs) + "\n\n"@,
                None => "ASSISTANT: "@ + e.content + "\n\n"@,
            },
        },
        Role::Tool => "TOOL_RESPONSE: "@ + e.content + "\n\n"@,
    }
}

/// The whole log as readable context.
pub open spec fn render_log(log: Seq<LogEntryModel>) -> Seq<char>
    decreases log.len(),
{
    if log.len() == 0 {
        Seq::empty()
    } else {
        render_log(log.drop_last()) + render_entry(log.last())
    }
}

fn push_pretty_call(out: &mut Vec<char>, c: &ToolCall)
    ensures
        final(out)@ == old(out)@ + pretty_call(c@),
{
    let ghost before = out@;
    append_chars(out, "  {\n    \"function\": {\n      \"arguments\": ");
    push_json_string(out, c.arguments.as_str());
    append_chars(out, ",\n      \"name\": ");
    push_json_string(out, c.name.as_str());
    append_chars(out, "\n    },\n    \"id\": ");
    push_json_string(out, c.id.as_str());
    append_chars(out, ",\n    \"type\": ");
    match c.kind {
        CallKind::Function => append_chars(out, "\"function\""),
        CallKind::System => append_chars(out, "\"system\""),
    }
    append_chars(out, "\n  }");
    assert(out@ =~= before + pretty_call(c@));
}

/// Tool calls as pretty-printed JSON, as serde_json writes such an array.
pub fn push_pretty_calls(out: &mut Vec<char>, calls: &Vec<ToolCall>)
    ensures
        final(out)@ == old(out)@ + pretty_calls(calls_view(*calls)),
{
    let ghost cs = calls_view(*calls);
    let ghost before = out@;
    if calls.len() == 0 {
        append_chars(out, "[]");
        return;
    }
    append_chars(out, "[\n");
    let ghost head = out@;
    let mut i: usize = 0;
    while i < calls.len()
        invariant
            i <= calls@.len(),
            cs == calls_view(*calls),
            cs.len() == calls@.len(),
            head == before + "[\n"@,
            out@ == head + pretty_call_items(cs.subrange(0, i as int)),
        decreases calls@.len() - i,
    {
        let ghost pre = cs.subrange(0, i as int);
        let ghost next = cs.subrange(0, i + 1);
        assert(next.drop_last() =~= pre);
        assert(next.last() == calls@[i as int]@);
        if i > 0 {
            append_chars(out, ",\n");
        }
        push_pretty_call(out, &calls[i]);
        proof {
            if i == 0 {
                assert(pre =~= Seq::<ToolCallModel>::empty());
            }
            assert(out@ =~= head + pretty_call_items(next));
        }
        i = i + 1;
    }
    assert(cs.subrange(0, cs.len() as int) =~= cs);
    append_chars(out, "\n]");
    assert(out@ =~= before + pretty_calls(cs));
}

fn push_entry(out: &mut Vec<char>, e: &LogEntry)
    ensures
        final(out)@ == old(out)@ + render_entry(e@),
{
    let ghost before = out@;
    match e.role {
        Role::System => {
            append_chars(out, "SYSTEM: ");
            append_chars(out, e.content.as_str());
        },
        Role::User => {
            append_chars(out, "USER: ");
            append_chars(out, e.content.as_str());
        },
        Role::Assistant => match &e.reasoning {
            Some(r) => {
                append_chars(out, "ASSISTANT_REASONING: ");
                append_chars(out, r.as_str());
            },
            None => match &e.tool_calls {
                Some(cs) => {
                    append_chars(out, "ASSISTANT_TOOL_CALLS: ");
                    push_pretty_calls(out, cs);
                },
                None => {
                    append_chars(out, "ASSISTANT: ");
                    append_chars(out, e.content.as_str());
                },
            },
        },
        Role::Tool => {
            append_chars(out, "TOOL_RESPONSE: ");
            append_chars(out, e.content.as_str());
        },
    }
    append_chars(out, "\n\n");
    assert(out@ =~= before + render_entry(e@));
}

/// The log's entries as values.
pub open spec fn log_view(log: Seq<LogEntry>) -> Seq<LogEntryModel> {
    log.map_values(|e: LogEntry| e@)
}

/// Renders the whole log as readable context.
pub fn render_context(log: &Vec<LogEntry>) -> (r: String)
    ensures
        r@ == render_log(log_view(log@)),
{
    let ghost lv = log_view(log@);
    let mut out: Vec<char> = Vec::new();
    let mut i: usize = 0;
    while i < log.len()
        invariant
            i <= log@.len(),
            lv == log_view(log@),
            lv.len() == log@.len(),
            out@ == render_log(lv.subrange(0, i as int)),
        decreases log@.len() - i,
    {
        let ghost next = lv.subrange(0, i + 1);
        assert(next.drop_last() =~= lv.subrange(0, i as int));
        assert(next.last() == log@[i as int]@);
        push_entry(&mut out, &log[i]);
        i = i + 1;
    }
    assert(lv.subrange(0, lv.len() as int) =~= lv);
    string_of(&out)
}

/// The number written with at least three digits, zeros in front.
pub open spec fn padded3(n: nat) -> Seq<char> {
    let d = decimal(n);
    if d.len() >= 3 {
        d
    } else if d.len() == 2 {
        seq!['0'] + d
    } else {
        seq!['0', '0'] + d
    }
}

/// The file name of checkpoint `n`.
pub open spec fn checkpoint_name(n: nat) -> Seq<char> {
    "iteration_"@ + padded3(n) + ".json"@
}

/// The file name of checkpoint `n`: `iteration_` and `n` with three digits at least.
pub fn checkpoint_file_name(n: u32) -> (r: String)
    ensures
        r@ == checkpoint_name(n as nat),
{
    let d = decimal_chars(n as u64);
    let mut out = chars_of("iteration_");
    if d.len() == 2 {
        out.push('0');
    } else if d.len() < 2 {
        out.push('0');
        out.push('0');
    }
    append_vec(&mut out, &d);
    append_chars(&mut out, ".json");
    let ghost pre = "iteration_"@;
    proof {
        if d@.len() >= 3 {
        } else if d@.len() == 2 {
            assert(out@ =~= pre + padded3(n as nat) + ".json"@);
        } else {
            assert(out@ =~= pre + padded3(n as nat) + ".json"@);
        }
    }
    assert(out@ =~= checkpoint_name(n as nat));
    string_of(&out)
}

/// The session record written beside the checkpoints, as pretty-printed JSON.
pub open spec fn session_info(start: u64, iteration: u32, elapsed: u64, updated: u64) -> Seq<char> {
    "{\n  \"current_iteration\": "@ + decimal(iteration as nat) + ",\n  \"elapsed_seconds\": "@
        + decimal(elapsed as nat) + ",\n  \"last_updated\": "@ + decimal(updated as nat)
        + ",\n  \"session_start\": "@ + decimal(start as nat) + "\n}"@
}

/// Writes the session record: when it started, the current iteration, the seconds
/// elapsed and when it was last updated (both times in seconds since the epoch).
pub fn session_info_json(start: u64, iteration: u32, elapsed: u64, updated: u64) -> (r: String)
    ensures
        r@ == session_info(start, iteration, elapsed, updated),
{
    let mut out: Vec<char> = Vec::new();
    append_chars(&mut out, "{\n  \"current_iteration\": ");
    push_number(&mut out, iteration as u64);
    append_chars(&mut out, ",\n  \"elapsed_seconds\": ");
    push_number(&mut out, elapsed);
    append_chars(&mut out, ",\n  \"last_updated\": ");
    push_number(&mut out, updated);
    append_chars(&mut out, ",\n  \"session_start\": ");
    push_number(&mut out, start);
    append_chars(&mut out, "\n}");
    assert(out@ =~= session_info(start, iteration, elapsed, updated));
    string_of(&out)
}

/// The time budget in seconds for a run of `minutes` minutes, saturating at the
/// largest value.
pub fn budget_seconds(minutes: u64) -> (r: u64)
    ensures
        r == if minutes * 60 <= u64::MAX {
            (minutes * 60) as u64
        } else {
            u64::MAX
        },
{
    if minutes <= u64::MAX / 60 {
        minutes * 60
    } else {
        u64::MAX
    }
}

/// Whether another iteration starts: the elapsed time is still under the budget.
pub fn should_continue(elapsed_secs: u64, budget_secs: u64) -> (r: bool)
    ensures
        r == (elapsed_secs < budget_secs),
{
    elapsed_secs < budget_secs
}

/// An optional text as values.
pub open spec fn opt_view(o: Option<String>) -> Option<Seq<char>> {
    match o {
        Some(s) => Some(s@),
        None => None,
    }
}

/// The state of an autonomous session between the driver's steps.
pub struct AutonomousSession {
    pub config_yaml: String,
    pub initial_template: String,
    pub continuation_template: String,
    pub log: Vec<LogEntry>,
    /// The readable context as of the last recorded turn.
    pub context: String,
    /// The number of the current (or last) iteration.
    pub iteration: u32,
    /// The number of the last checkpoint written.
    pub last_checkpoint: u32,
    /// The length of the log at the last checkpoint.
    pub checkpointed_len: usize,
    /// The log of each checkpoint written, by number.
    pub checkpoints: Ghost<Seq<Seq<LogEntryModel>>>,
}

impl AutonomousSession {
    pub open spec fn entries(&self) -> Seq<LogEntryModel> {
        log_view(self.log@)
    }

    /// Checkpoints are numbered from zero without gaps, each one's log is a prefix of
    /// the current log, and each is strictly longer than the one before.
    pub open spec fn wf(&self) -> bool {
        &&& self.checkpoints@.len() >= 1
        &&& self.checkpoints@.len() == self.last_checkpoint + 1
        &&& self.last_checkpoint <= self.iteration <= self.last_checkpoint + 1
        &&& self.checkpointed_len == self.checkpoints@.last().len()
        &&& self.checkpointed_len <= self.log@.len()
        &&& forall|i: int|
            0 <= i < self.checkpoints@.len() ==> {
                &&& (#[trigger] self.checkpoints@[i]).len() <= self.checkpointed_len
                &&& self.checkpoints@[i] == self.entries().subrange(
                    0,
                    self.checkpoints@[i].len() as int,
                )
            }
        &&& forall|i: int, j: int|
            0 <= i < j < self.checkpoints@.len() ==> (#[trigger] self.checkpoints@[i]).len()
                < (#[trigger] self.checkpoints@[j]).len()
    }

    /// A session whose log holds the system prompt; that log is checkpoint zero.
    pub fn new(
        system_prompt: String,
        config_yaml: String,
        initial_template: String,
        continuation_template: String,
    ) -> (r: Self)
        ensures
            r.wf(),
            r.entries() == seq![message_entry(Role::System, system_prompt@)],
            r.checkpoints@ == seq![r.entries()],
            r.iteration == 0,
            r.config_yaml@ == config_yaml@,
            r.initial_template@ == initial_template@,
            r.continuation_template@ == continuation_template@,
            r.context@ == Seq::<char>::empty(),
    {
        let mut log: Vec<LogEntry> = Vec::new();
        let ghost sp = system_prompt@;
        log.push(
            LogEntry {
                role: Role::System,
                content: system_prompt,
                reasoning: None,
                tool_calls: None,
                tool_call_id: None,
            },
        );
        assert(log_view(log@) =~= seq![message_entry(Role::System, sp)]);
        let ghost first = log_view(log@);
        let ghost cps = seq![first];
        let r = AutonomousSession {
            config_yaml,
            initial_template,
            continuation_template,
            log,
            context: string_of(&Vec::new()),
            iteration: 0,
            last_checkpoint: 0,
            checkpointed_len: 1,
            checkpoints: Ghost(cps),
        };
        assert(r.entries().subrange(0, 1) =~= r.entries());
        r
    }

    /// Appends an entry to the log.
    pub fn push_entry(&mut self, e: LogEntry)
        requires
            old(self).wf(),
        ensures
            final(self).wf(),
            final(self).entries() == old(self).entries().push(e@),
            final(self).iteration == old(self).iteration,
            final(self).last_checkpoint == old(self).last_checkpoint,
            final(self).checkpoints == old(self).checkpoints,
            final(self).context == old(self).context,
            final(self).config_yaml == old(self).config_yaml,
            final(self).initial_template == old(self).initial_template,
            final(self).continuation_template == old(self).continuation_template,
    {
        let ghost before = self.entries();
        let ghost ev = e@;
        self.log.push(e);
        assert(self.entries() =~= before.push(ev));
        assert forall|i: int| 0 <= i < self.checkpoints@.len() implies self.checkpoints@[i]
            == self.entries().subrange(0, self.checkpoints@[i].len() as int) by {
            assert(self.entries().subrange(0, self.checkpoints@[i].len() as int) =~= before.subrange(
                0,
                self.checkpoints@[i].len() as int,
            ));
        }
    }

    /// Starts the next iteration and renders its generation prompt: the initial
    /// template for the first iteration, the continuation template after that, with
    /// the task configuration and the readable context substituted.
    pub fn begin_iteration(&mut self) -> (prompt: String)
        requires
            old(self).wf(),
            old(self).iteration == old(self).last_checkpoint,
            old(self).iteration < u32::MAX,
        ensures
            final(self).wf(),
            final(self).iteration == old(self).iteration + 1,
            final(self).log == old(self).log,
            final(self).checkpoints == old(self).checkpoints,
            final(self).last_checkpoint == old(self).last_checkpoint,
            final(self).context == old(self).context,
            final(self).config_yaml == old(self).config_yaml,
            final(self).initial_template == old(self).initial_template,
            final(self).continuation_template == old(self).continuation_template,
            prompt@ == driver_prompt(
                if final(self).iteration == 1 {
                    old(self).initial_template@
                } else {
                    old(self).continuation_template@
                },
                old(self).config_yaml@,
                old(self).context@,
            ),
    {
        self.iteration = self.iteration + 1;
        if self.iteration == 1 {
            inject_template_variables(
                self.initial_template.as_str(),
                self.config_yaml.as_str(),
                self.context.as_str(),
            )
        } else {
            inject_template_variables(
                self.continuation_template.as_str(),
                self.config_yaml.as_str(),
                self.context.as_str(),
            )
        }
    }

    /// Records the generated user instruction.
    pub fn record_user_prompt(&mut self, prompt: String)
        requires
            old(self).wf(),
        ensures
            final(self).wf(),
            final(self).entries() == old(self).entries().push(message_entry(Role::User, prompt@)),
            final(self).iteration == old(self).iteration,
            final(self).last_checkpoint == old(self).last_checkpoint,
            final(self).checkpoints == old(self).checkpoints,
            final(self).context == old(self).context,
            final(self).config_yaml == old(self).config_yaml,
            final(self).initial_template == old(self).initial_template,
            final(self).continuation_template == old(self).continuation_template,
    {
        self.push_entry(
            LogEntry {
                role: Role::User,
                content: prompt,
                reasoning: None,
                tool_calls: None,
                tool_call_id: None,
            },
        );
    }

    /// Records a finished turn in its causal order (reasoning, tool calls, tool
    /// responses, reply) and re-renders the readable context from the whole log.
    pub fn record_turn(&mut self, turn: TurnResult)
        requires
            old(self).wf(),
        ensures
            final(self).wf(),
            final(self).entries() == old(self).entries() + turn_entries(
                opt_view(turn.reasoning),
                turn.calls(),
                turn.responses(),
                turn.content@,
            ),
            final(self).context@ == render_log(final(self).entries()),
            final(self).iteration == old(self).iteration,
            final(self).last_checkpoint == old(self).last_checkpoint,
            final(self).checkpoints == old(self).checkpoints,
            final(self).config_yaml == old(self).config_yaml,
            final(self).initial_template == old(self).initial_template,
            final(self).continuation_template == old(self).continuation_template,
    {
        let ghost start = self.entries();
        let ghost calls = turn.calls();
        let ghost responses = turn.responses();
        let ghost content = turn.content@;
        let ghost reasoning = opt_view(turn.reasoning);
        let TurnResult { content: reply, tool_calls, reasoning: thought, tool_responses, .. } = turn;
        let ghost r_part: Seq<LogEntryModel> = match reasoning {
            Some(t) => seq![
                LogEntryModel {
                    role: Role::Assistant,
                    content: Seq::empty(),
                    reasoning: Some(t),
                    tool_calls: None,
                    tool_call_id: None,
                },
            ],
            None => Seq::empty(),
        };
        match thought {
            Some(t) => {
                self.push_entry(
                    LogEntry {
                        role: Role::Assistant,
                        content: string_of(&Vec::new()),
                        reasoning: Some(t),
                        tool_calls: None,
                        tool_call_id: None,
                    },
                );
                assert(self.entries() =~= start + r_part);
            },
            None => {
                assert(self.entries() =~= start + r_part);
            },
        }
        let ghost c_part: Seq<LogEntryModel> = if calls.len() > 0 {
            seq![
                LogEntryModel {
                    role: Role::Assistant,
                    content: Seq::empty(),
                    reasoning: None,
                    tool_calls: Some(calls),
                    tool_call_id: None,
                },
            ]
        } else {
            Seq::empty()
        };
        if tool_calls.len() > 0 {
            self.push_entry(
                LogEntry {
                    role: Role::Assistant,
                    content: string_of(&Vec::new()),
                    reasoning: None,
                    tool_calls: Some(tool_calls),
                    tool_call_id: None,
                },
            );
        }
        assert(self.entries() =~= start + r_part + c_part);
        let ghost t_part = responses.map_values(|x: ToolResponseModel| tool_entry(x));
        assert forall|i: int| 0 <= i < t_part.len() implies #[trigger] t_part[i] == tool_entry(
            responses[i],
        ) by {}
        let ghost mid = self.entries();
        let total = tool_responses.len();
        let mut k: usize = 0;
        while k < total
            invariant
                self.wf(),
                k <= total,
                total == tool_responses@.len(),
                responses == tool_responses@.map_values(|r: ToolResponse| r@),
                t_part.len() == total,
                forall|i: int| 0 <= i < t_part.len() ==> #[trigger] t_part[i] == tool_entry(responses[i]),
                self.entries() == mid + t_part.subrange(0, k as int),
                self.iteration == old(self).iteration,
                self.last_checkpoint == old(self).last_checkpoint,
                self.checkpoints == old(self).checkpoints,
                self.config_yaml == old(self).config_yaml,
                self.initial_template == old(self).initial_template,
                self.continuation_template == old(self).continuation_template,
            decreases total - k,
        {
            let r = &tool_responses[k];
            let entry = LogEntry {
                role: Role::Tool,
                content: r.content.clone(),
                reasoning: None,
                tool_calls: None,
                tool_call_id: Some(r.tool_call_id.clone()),
            };
            assert(responses[k as int] == tool_responses@[k as int]@);
            assert(t_part[k as int] == tool_entry(responses[k as int]));
            assert(entry@ == t_part[k as int]);
            self.push_entry(entry);
            assert(t_part.subrange(0, k + 1) =~= t_part.subrange(0, k as int).push(t_part[k as int]));
            assert(self.entries() =~= mid + t_part.subrange(0, k + 1));
            k = k + 1;
        }
        assert(t_part.subrange(0, total as int) =~= t_part);
        let ghost reply_view = reply@;
        self.push_entry(
            LogEntry {
                role: Role::Assistant,
                content: reply,
                reasoning: None,
                tool_calls: None,
                tool_call_id: None,
            },
        );
        assert(self.entries() =~= start + turn_entries(reasoning, calls, responses, content));
        self.context = render_context(&self.log);
    }

    /// Marks the end of the current iteration: the log as it stands becomes the
    /// checkpoint numbered like the iteration. Returns that checkpoint's file name.
    pub fn checkpoint(&mut self) -> (name: String)
        requires
            old(self).wf(),
            old(self).iteration == old(self).last_checkpoint + 1,
            old(self).log@.len() > old(self).checkpointed_len,
        ensures
            final(self).wf(),
            final(self).last_checkpoint == old(self).iteration,
            final(self).checkpoints@ == old(self).checkpoints@.push(old(self).entries()),
            final(self).log == old(self).log,
            final(self).iteration == old(self).iteration,
            final(self).context == old(self).context,
            final(self).config_yaml == old(self).config_yaml,
            final(self).initial_template == old(self).initial_template,
            final(self).continuation_template == old(self).continuation_template,
            name@ == checkpoint_name(old(self).iteration as nat),
    {
        let ghost snapshot = self.entries();
        let ghost before = self.checkpoints@;
        self.checkpoints = Ghost(self.checkpoints@.push(snapshot));
        self.last_checkpoint = self.iteration;
        self.checkpointed_len = self.log.len();
        assert(snapshot.subrange(0, snapshot.len() as int) =~= snapshot);
        assert forall|i: int| 0 <= i < self.checkpoints@.len() implies {
            &&& (#[trigger] self.checkpoints@[i]).len() <= self.checkpointed_len
            &&& self.checkpoints@[i] == self.entries().subrange(0, self.checkpoints@[i].len() as int)
        } by {
            if i < before.len() {
                assert(self.checkpoints@[i] == before[i]);
            }
        }
        assert forall|i: int, j: int| 0 <= i < j < self.checkpoints@.len() implies (
        #[trigger] self.checkpoints@[i]).len() < (#[trigger] self.checkpoints@[j]).len() by {
            if j < before.len() {
                assert(self.checkpoints@[i] == before[i]);
                assert(self.checkpoints@[j] == before[j]);
            } else {
                assert(self.checkpoints@[i] == before[i]);
                assert(before[i].len() <= old(self).checkpointed_len);
            }
        }
        checkpoint_file_name(self.iteration)
    }

    /// The checkpoint written when the loop ends, normally or not: the log becomes
    /// checkpoint `iteration` when it grew since the last checkpoint; otherwise the
    /// last checkpoint already holds it and nothing is written.
    pub fn final_checkpoint(&mut self) -> (name: Option<String>)
        requires
            old(self).wf(),
            old(self).last_checkpoint < u32::MAX,
        ensures
            final(self).wf(),
            final(self).log == old(self).log,
            old(self).log@.len() > old(self).checkpointed_len ==> {
                &&& final(self).checkpoints@ == old(self).checkpoints@.push(old(self).entries())
                &&& name matches Some(n) && n@ == checkpoint_name(
                    (old(self).last_checkpoint + 1) as nat,
                )
            },
            old(self).log@.len() <= old(self).checkpointed_len ==> {
                &&& final(self).checkpoints == old(self).checkpoints
                &&& name is None
            },
    {
        if self.log.len() > self.checkpointed_len {
            if self.iteration == self.last_checkpoint {
                self.iteration = self.iteration + 1;
            }
            Some(self.checkpoint())
        } else {
            None
        }
    }
}

/// Checkpoints extend one another: of any two, the earlier one's log is a strict
/// prefix of the later one's, never reordered, and the checkpoints written after
/// `n` finished iterations are those numbered zero to `n`.
pub proof fn checkpoints_extend(s: AutonomousSession, i: int, j: int)
    requires
        s.wf(),
        0 <= i < j < s.checkpoints@.len(),
    ensures
        s.checkpoints@[i].len() < s.checkpoints@[j].len(),
        s.checkpoints@[i] == s.checkpoints@[j].subrange(0, s.checkpoints@[i].len() as int),
        s.checkpoints@.len() == s.last_checkpoint + 1,
{
    let a = s.checkpoints@[i];
    let b = s.checkpoints@[j];
    assert(a.len() < b.len());
    assert(b.subrange(0, a.len() as int) =~= s.entries().subrange(0, a.len() as int));
}

/// Why the generation service gave no instruction.
#[derive(PartialEq, Eq, Structural, Clone, Copy, Debug)]
pub enum CompletionError {
    /// The service's stream produced no text.
    NoOutput,
}

/// The instruction made of the text that the generation service streamed: the
/// text trimmed, or an error when there was none.
pub fn completion_text(collected: String) -> (r: Result<String, CompletionError>)
    ensures
        collected@.len() == 0 ==> r == Err::<String, CompletionError>(CompletionError::NoOutput),
        collected@.len() > 0 ==> (r matches Ok(t) && t@ == trimmed(collected@)),
{
    if collected.as_str().unicode_len() == 0 {
        Err(CompletionError::NoOutput)
    } else {
        Ok(trim(collected.as_str()))
    }
}

} // verus!
