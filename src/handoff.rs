//! The supervisor handoff: the status record announced between turns, and the
//! decisions taken while polling for a followup written by the supervising process.
use vstd::prelude::*;
use crate::json::{push_json_string, push_number};
use crate::text::{append_chars, decimal, json_string_of, string_of, trim, trimmed};

verus! {

/// The `message` member (when it is a JSON string) and the `terminate` member (when
/// it is a JSON boolean) of the JSON document `text`; `None` when `text` is not JSON.
pub uninterp spec fn followup_members(text: Seq<char>) -> Option<(Option<Seq<char>>, Option<bool>)>;

/// Relies on `serde_json::from_str` to parse the followup document, and on
/// `Value::get`, `Value::as_str` and `Value::as_bool` to read its two members.
#[verifier::external_body]
fn parse_followup(text: &str) -> (r: Option<(Option<String>, Option<bool>)>)
    ensures
        match followup_members(text@) {
            None => r is None,
            Some((m, t)) => r matches Some((rm, rt)) && rt == t && match (rm, m) {
                (Some(x), Some(y)) => x@ == y,
                (None, None) => true,
                _ => false,
            },
        },
{
    let doc = serde_json::from_str::<serde_json::Value>(text).ok()?;
    let message = doc.get("message").and_then(|v| v.as_str()).map(String::from);
    let terminate = doc.get("terminate").and_then(|v| v.as_bool());
    Some((message, terminate))
}

/// What the session announces in its status record.
#[derive(PartialEq, Eq, Structural, Clone, Copy, Debug)]
pub enum HandoffStatus {
    Processing,
    WaitingForFollowup,
}

pub open spec fn status_name(s: HandoffStatus) -> Seq<char> {
    match s {
        HandoffStatus::Processing => "processing"@,
        HandoffStatus::WaitingForFollowup => "waiting_for_followup"@,
    }
}

/// The status record as pretty-printed JSON, keys in order; the model only when known.
pub open spec fn status_record(
    status: HandoffStatus,
    instance_id: Seq<char>,
    last_message_index: u64,
    timestamp: Seq<char>,
    model: Option<String>,
) -> Seq<char> {
    "{\n  \"instance_id\": "@ + json_string_of(instance_id) + ",\n  \"last_message_index\": "@
        + decimal(last_message_index as nat) + match model {
        Some(m) => ",\n  \"model\": "@ + json_string_of(m@),
        None => Seq::empty(),
    } + ",\n  \"status\": "@ + json_string_of(status_name(status)) + ",\n  \"timestamp\": "@
        + json_string_of(timestamp) + "\n}"@
}

/// Writes the status record.
pub fn status_json(
    status: HandoffStatus,
    instance_id: &str,
    last_message_index: u64,
    timestamp: &str,
    model: &Option<String>,
) -> (r: String)
    ensures
        r@ == status_record(status, instance_id@, last_message_index, timestamp@, *model),
{
    let mut out: Vec<char> = Vec::new();
    append_chars(&mut out, "{\n  \"instance_id\": ");
    push_json_string(&mut out, instance_id);
    append_chars(&mut out, ",\n  \"last_message_index\": ");
    push_number(&mut out, last_message_index);
    let ghost head = out@;
    match model {
        Some(m) => {
            append_chars(&mut out, ",\n  \"model\": ");
            push_json_string(&mut out, m.as_str());
        },
        None => {},
    }
    let ghost with_model = out@;
    append_chars(&mut out, ",\n  \"status\": ");
    match status {
        HandoffStatus::Processing => push_json_string(&mut out, "processing"),
        HandoffStatus::WaitingForFollowup => push_json_string(&mut out, "waiting_for_followup"),
    }
    append_chars(&mut out, ",\n  \"timestamp\": ");
    push_json_string(&mut out, timestamp);
    append_chars(&mut out, "\n}");
    assert(out@ =~= status_record(status, instance_id@, last_message_index, timestamp@, *model));
    string_of(&out)
}

/// What a followup asks for.
pub enum FollowupOutcome {
    /// Run another turn with this prompt.
    Prompt(String),
    /// End the session.
    Terminate,
    /// Neither: the followup is consumed and polling goes on.
    Ignore,
}

/// What reading the followup file's text gave.
pub enum FollowupRead {
    /// The text is not JSON; the writer may still be writing it.
    Malformed,
    /// A JSON document, and what it asks for.
    Parsed(FollowupOutcome),
}

/// A followup's meaning as values.
pub enum FollowupView {
    Malformed,
    Prompt(Seq<char>),
    Terminate,
    Ignore,
}

/// The outcome of a followup with the given `message` and `terminate` members: a
/// message is the next prompt unless it is blank, which ends the session; without a
/// message, `terminate: true` ends it; anything else is ignored.
pub open spec fn member_outcome(message: Option<Seq<char>>, terminate: Option<bool>) -> FollowupView {
    match message {
        Some(m) => if trimmed(m).len() == 0 {
            FollowupView::Terminate
        } else {
            FollowupView::Prompt(m)
        },
        None => if terminate == Some(true) {
            FollowupView::Terminate
        } else {
            FollowupView::Ignore
        },
    }
}

/// What the followup file's text asks for.
pub open spec fn followup_view(text: Seq<char>) -> FollowupView {
    match followup_members(text) {
        None => FollowupView::Malformed,
        Some((m, t)) => member_outcome(m, t),
    }
}

pub open spec fn outcome_view(o: FollowupOutcome) -> FollowupView {
    match o {
        FollowupOutcome::Prompt(m) => FollowupView::Prompt(m@),
        FollowupOutcome::Terminate => FollowupView::Terminate,
        FollowupOutcome::Ignore => FollowupView::Ignore,
    }
}

pub open spec fn read_view(r: FollowupRead) -> FollowupView {
    match r {
        FollowupRead::Malformed => FollowupView::Malformed,
        FollowupRead::Parsed(o) => outcome_view(o),
    }
}

/// Decides a followup from its `message` and `terminate` members.
pub fn decide_followup(message: Option<String>, terminate: Option<bool>) -> (r: FollowupOutcome)
    ensures
        outcome_view(r) == member_outcome(
            match message {
                Some(m) => Some(m@),
                None => None,
            },
            terminate,
        ),
{
    match message {
        Some(m) => {
            let t = trim(m.as_str());
            if t.as_str().unicode_len() == 0 {
                FollowupOutcome::Terminate
            } else {
                FollowupOutcome::Prompt(m)
            }
        },
        None => match terminate {
            Some(true) => FollowupOutcome::Terminate,
            _ => FollowupOutcome::Ignore,
        },
    }
}

/// Reads the followup file's text: a JSON document whose string member `message`
/// and boolean member `terminate` decide the outcome.
pub fn read_followup(text: &str) -> (r: FollowupRead)
    ensures
        read_view(r) == followup_view(text@),
{
    match parse_followup(text) {
        None => FollowupRead::Malformed,
        Some((message, terminate)) => FollowupRead::Parsed(decide_followup(message, terminate)),
    }
}

/// One decision of the poll loop.
pub struct PollStep {
    /// Remove the followup file now, so that it is taken once.
    pub delete_file: bool,
    /// `Some(r)`: stop polling with `r` (`Some(prompt)` or `None` to end the
    /// session); `None`: sleep and poll again.
    pub result: Option<Option<String>>,
}

pub open spec fn step_view(s: PollStep) -> (bool, Option<Option<Seq<char>>>) {
    (
        s.delete_file,
        match s.result {
            Some(Some(m)) => Some(Some(m@)),
            Some(None) => Some(None),
            None => None,
        },
    )
}

/// The poll decision: a parsed followup is consumed; a prompt or a termination ends
/// the wait; otherwise the wait ends with `None` once more than `timeout_ms` passed.
/// `read` is `None` when there is no followup file.
pub open spec fn poll_decision(read: Option<FollowupView>, elapsed_ms: u64, timeout_ms: u64) -> (
    bool,
    Option<Option<Seq<char>>>,
) {
    let waiting = if elapsed_ms > timeout_ms {
        Some(None)
    } else {
        None
    };
    match read {
        Some(FollowupView::Prompt(m)) => (true, Some(Some(m))),
        Some(FollowupView::Terminate) => (true, Some(None)),
        Some(FollowupView::Ignore) => (true, waiting),
        _ => (false, waiting),
    }
}

/// Decides one poll from what was read (`None` when there is no followup file),
/// the time waited so far and the timeout.
pub fn decide_poll(read: Option<FollowupRead>, elapsed_ms: u64, timeout_ms: u64) -> (r: PollStep)
    ensures
        step_view(r) == poll_decision(
            match read {
                Some(x) => Some(read_view(x)),
                None => None,
            },
            elapsed_ms,
            timeout_ms,
        ),
{
    let waiting = if elapsed_ms > timeout_ms {
        Some(None)
    } else {
        None
    };
    match read {
        Some(FollowupRead::Parsed(FollowupOutcome::Prompt(m))) => PollStep {
            delete_file: true,
            result: Some(Some(m)),
        },
        Some(FollowupRead::Parsed(FollowupOutcome::Terminate)) => PollStep {
            delete_file: true,
            result: Some(None),
        },
        Some(FollowupRead::Parsed(FollowupOutcome::Ignore)) => PollStep {
            delete_file: true,
            result: waiting,
        },
        _ => PollStep { delete_file: false, result: waiting },
    }
}

/// One poll: reads the followup file's text if there is one, then decides.
pub fn poll_followup(content: Option<&str>, elapsed_ms: u64, timeout_ms: u64) -> (r: PollStep)
    ensures
        step_view(r) == poll_decision(
            match content {
                Some(t) => Some(followup_view(t@)),
                None => None,
            },
            elapsed_ms,
            timeout_ms,
        ),
{
    match content {
        Some(text) => decide_poll(Some(read_followup(text)), elapsed_ms, timeout_ms),
        None => decide_poll(None, elapsed_ms, timeout_ms),
    }
}

/// The followup round trip: a followup whose `message` is non-blank is consumed and
/// yields that message; one with a blank message, or with no message and
/// `terminate: true`, is consumed and ends the session; a followup file that is not
/// JSON is left in place; with no followup the wait ends with `None` once the
/// timeout has passed. A consumed followup is removed in the same step, so it is
/// read at most once.
pub proof fn followup_round_trip(text: Seq<char>, elapsed_ms: u64, timeout_ms: u64)
    ensures
        match followup_members(text) {
            Some((Some(m), _)) => poll_decision(Some(followup_view(text)), elapsed_ms, timeout_ms)
                == (
                true,
                if trimmed(m).len() > 0 {
                    Some(Some(m))
                } else {
                    Some(None)
                },
            ),
            Some((None, Some(true))) => poll_decision(
                Some(followup_view(text)),
                elapsed_ms,
                timeout_ms,
            ) == (true, Some(None::<Seq<char>>)),
            None => !poll_decision(Some(followup_view(text)), elapsed_ms, timeout_ms).0,
            _ => true,
        },
        elapsed_ms > timeout_ms ==> poll_decision(None, elapsed_ms, timeout_ms) == (
            false,
            Some(None::<Seq<char>>),
        ),
        elapsed_ms <= timeout_ms ==> poll_decision(None, elapsed_ms, timeout_ms) == (
            false,
            None::<Option<Seq<char>>>,
        ),
{
}

} // verus!
