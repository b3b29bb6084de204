//! Turning the decision service's free-text answer into a typed decision.
use vstd::prelude::*;
use crate::protocol::ReviewDecision;
use crate::text::{
    chars_of, find_chars, lower_of, lowercase, occurs_at, matches_at, string_of, trim, trim_chars,
    trimmed,
};

verus! {

/// How a decision-service answer was read.
#[derive(PartialEq, Eq, Structural, Clone, Copy, Debug)]
pub enum VerdictKind {
    /// The answer starts with the affirmative keyword.
    Approved,
    /// The answer starts with the negative keyword.
    Denied,
    /// The answer starts with neither keyword; it counts as a denial.
    Unparseable,
}

/// How an answer was read: its kind, and the rationale that the answer gives.
pub struct Verdict {
    pub kind: VerdictKind,
    pub rationale: String,
}

impl Verdict {
    pub open spec fn approved(&self) -> bool {
        self.kind == VerdictKind::Approved
    }

    /// Whether the verdict lets the action go ahead.
    pub fn is_approved(&self) -> (r: bool)
        ensures
            r == self.approved(),
    {
        self.kind == VerdictKind::Approved
    }
}

/// `i` is the first index at which `p` occurs in `s`.
pub open spec fn is_first_occurrence(s: Seq<char>, p: Seq<char>, i: int) -> bool {
    occurs_at(s, p, i) && forall|j: int| 0 <= j < i ==> !#[trigger] occurs_at(s, p, j)
}

/// The first index at which `p` occurs in `s`, if any.
pub open spec fn first_occurrence(s: Seq<char>, p: Seq<char>) -> Option<int> {
    if exists|i: int| is_first_occurrence(s, p, i) {
        Some(choose|i: int| is_first_occurrence(s, p, i))
    } else {
        None
    }
}

proof fn lemma_first_occurrence_unique(s: Seq<char>, p: Seq<char>, i: int)
    requires
        is_first_occurrence(s, p, i),
    ensures
        first_occurrence(s, p) == Some(i),
{
    let k = choose|k: int| is_first_occurrence(s, p, k);
    assert(is_first_occurrence(s, p, k));
    if k < i {
        assert(!occurs_at(s, p, k));
    } else if k > i {
        assert(!occurs_at(s, p, i));
    }
}

/// The first index at which `p` occurs in `v`.
fn find_first(v: &Vec<char>, p: &Vec<char>) -> (r: Option<usize>)
    ensures
        match r {
            Some(i) => first_occurrence(v@, p@) == Some(i as int) && occurs_at(v@, p@, i as int),
            None => first_occurrence(v@, p@) is None,
        },
{
    let r = find_chars(v, p);
    proof {
        match r {
            Some(i) => lemma_first_occurrence_unique(v@, p@, i as int),
            None => {
                assert(!exists|i: int| is_first_occurrence(v@, p@, i));
            },
        }
    }
    r
}

/// The characters of `v` after the `skip` characters that start at index `at`.
fn suffix(v: &Vec<char>, at: usize, skip: usize) -> (r: Vec<char>)
    requires
        at + skip <= v@.len(),
    ensures
        r@ == v@.skip(at + skip),
{
    let n = v.len();
    let i = at + skip;
    let mut r: Vec<char> = Vec::new();
    let mut k: usize = i;
    while k < n
        invariant
            n == v@.len(),
            i <= k <= v@.len(),
            r@ == v@.subrange(i as int, k as int),
        decreases v@.len() - k,
    {
        r.push(v[k]);
        assert(r@ =~= v@.subrange(i as int, k + 1));
        k = k + 1;
    }
    assert(r@ =~= v@.skip(i as int));
    r
}

/// The rationale that follows a keyword: the trimmed text after the first `" - "`,
/// else after the first upper-case keyword, else after the first lower-case one.
pub open spec fn rationale_after(t: Seq<char>, upper: Seq<char>, lower: Seq<char>) -> Seq<char> {
    match first_occurrence(t, " - "@) {
        Some(i) => trimmed(t.skip(i + 3)),
        None => match first_occurrence(t, upper) {
            Some(i) => trimmed(t.skip(i + upper.len())),
            None => match first_occurrence(t, lower) {
                Some(i) => trimmed(t.skip(i + lower.len())),
                None => "No reasoning provided"@,
            },
        },
    }
}

/// The verdict read from a trimmed answer `t` whose lower-cased form is `lowered`.
pub open spec fn verdict_given(t: Seq<char>, lowered: Seq<char>) -> (VerdictKind, Seq<char>) {
    if occurs_at(lowered, "approve"@, 0) {
        (VerdictKind::Approved, rationale_after(t, "APPROVE"@, "approve"@))
    } else if occurs_at(lowered, "deny"@, 0) {
        (VerdictKind::Denied, rationale_after(t, "DENY"@, "deny"@))
    } else {
        (VerdictKind::Unparseable, "Unclear response format - auto-denied for safety: "@ + t)
    }
}

/// The verdict read from an answer: its kind and its rationale.
pub open spec fn verdict_of(response: Seq<char>) -> (VerdictKind, Seq<char>) {
    verdict_given(trimmed(response), lower_of(trimmed(response)))
}

fn rationale(t: &Vec<char>, upper: &str, lower: &str) -> (r: Vec<char>)
    ensures
        r@ == rationale_after(t@, upper@, lower@),
{
    let sep = chars_of(" - ");
    proof {
        reveal_strlit(" - ");
    }
    match find_first(t, &sep) {
        Some(i) => {
            return trim_chars(&suffix(t, i, 3));
        },
        None => {},
    }
    let up = chars_of(upper);
    match find_first(t, &up) {
        Some(i) => {
            return trim_chars(&suffix(t, i, up.len()));
        },
        None => {},
    }
    let low = chars_of(lower);
    match find_first(t, &low) {
        Some(i) => trim_chars(&suffix(t, i, low.len())),
        None => chars_of("No reasoning provided"),
    }
}

/// Reads a decision-service answer. An answer that starts, ignoring case and
/// surrounding white space, with "approve" is an approval, one that starts with
/// "deny" a denial, and anything else is unparseable, which denies.
pub fn resolve_verdict(response: &str) -> (r: Verdict)
    ensures
        (r.kind, r.rationale@) == verdict_of(response@),
{
    let t = trim(response);
    let lowered = lowercase(t.as_str());
    resolve_lowered(t.as_str(), lowered.as_str())
}

/// Reads a trimmed decision-service answer `trimmed_answer`, given its lower-cased
/// form: the keyword test is made on `lowered`, the rationale is taken from
/// `trimmed_answer`.
pub fn resolve_lowered(trimmed_answer: &str, lowered: &str) -> (r: Verdict)
    ensures
        (r.kind, r.rationale@) == verdict_given(trimmed_answer@, lowered@),
{
    let t = chars_of(trimmed_answer);
    let lower = chars_of(lowered);
    let approve = chars_of("approve");
    let deny = chars_of("deny");
    if matches_at(&lower, &approve, 0) {
        Verdict { kind: VerdictKind::Approved, rationale: string_of(&rationale(&t, "APPROVE", "approve")) }
    } else if matches_at(&lower, &deny, 0) {
        Verdict { kind: VerdictKind::Denied, rationale: string_of(&rationale(&t, "DENY", "deny")) }
    } else {
        let mut out = chars_of("Unclear response format - auto-denied for safety: ");
        let ghost head = out@;
        let mut k: usize = 0;
        while k < t.len()
            invariant
                k <= t@.len(),
                out@ == head + t@.subrange(0, k as int),
            decreases t@.len() - k,
        {
            out.push(t[k]);
            assert(out@ =~= head + t@.subrange(0, k + 1));
            k = k + 1;
        }
        assert(t@.subrange(0, t@.len() as int) =~= t@);
        Verdict { kind: VerdictKind::Unparseable, rationale: string_of(&out) }
    }
}

/// Reads a decision-service answer as an approval flag and a rationale; an
/// unparseable answer is a denial.
pub fn parse_approval_response(response: &str) -> (r: (bool, String))
    ensures
        r.0 == (verdict_of(response@).0 == VerdictKind::Approved),
        r.1@ == verdict_of(response@).1,
{
    let v = resolve_verdict(response);
    let approved = v.is_approved();
    (approved, v.rationale)
}

/// The decision for a session-level approval request, from the decision service's
/// answer or its failure: only an answer read as an approval approves, and a failure
/// denies.
pub fn command_decision(response: &Result<String, String>) -> (r: ReviewDecision)
    ensures
        (r == ReviewDecision::Approved) == (response matches Ok(text) && verdict_of(text@).0
            == VerdictKind::Approved),
{
    match response {
        Ok(text) => if resolve_verdict(text.as_str()).is_approved() {
            ReviewDecision::Approved
        } else {
            ReviewDecision::Denied
        },
        Err(_) => ReviewDecision::Denied,
    }
}

/// Reading an answer is a function of its text: equal texts give equal verdicts,
/// and a text that starts with neither keyword (ignoring case and surrounding white
/// space) is never an approval.
pub proof fn verdict_is_total_and_fail_closed(a: Seq<char>, b: Seq<char>)
    ensures
        a == b ==> verdict_of(a) == verdict_of(b),
        !occurs_at(lower_of(trimmed(a)), "approve"@, 0) ==> verdict_of(a).0
            != VerdictKind::Approved,
        !occurs_at(lower_of(trimmed(a)), "approve"@, 0) && !occurs_at(
            lower_of(trimmed(a)),
            "deny"@,
            0,
        ) ==> verdict_of(a).0 == VerdictKind::Unparseable,
{
}

} // verus!
