//! Writing the JSON texts that the transcript records: objects are framed here, and
//! string literals are quoted by serde_json.
use vstd::prelude::*;
use crate::text::{append_chars, decimal, decimal_chars, json_quote, json_string_of,
    signed_decimal, signed_decimal_chars};

verus! {

/// Relies on `serde_json::to_string` to write a JSON value compactly.
#[verifier::external_body]
pub(crate) fn json_compact(v: &serde_json::Value) -> (r: String) {
    serde_json::to_string(v).unwrap_or_default()
}

/// The quoted items of a JSON string array, separated by commas.
pub open spec fn json_items(items: Seq<String>) -> Seq<char>
    decreases items.len(),
{
    if items.len() == 0 {
        Seq::empty()
    } else if items.len() == 1 {
        json_string_of(items[0]@)
    } else {
        json_items(items.drop_last()) + ","@ + json_string_of(items.last()@)
    }
}

/// A JSON array of strings, as serde_json writes a `Vec<String>`.
pub open spec fn json_string_array(items: Seq<String>) -> Seq<char> {
    "["@ + json_items(items) + "]"@
}

/// A JSON boolean.
pub open spec fn json_bool(b: bool) -> Seq<char> {
    if b {
        "true"@
    } else {
        "false"@
    }
}

/// An optional JSON number, `null` when absent.
pub open spec fn json_opt_number(n: Option<u64>) -> Seq<char> {
    match n {
        Some(v) => decimal(v as nat),
        None => "null"@,
    }
}

/// An optional JSON string, `null` when absent.
pub open spec fn json_opt_string(s: Option<String>) -> Seq<char> {
    match s {
        Some(v) => json_string_of(v@),
        None => "null"@,
    }
}

/// Appends the characters of `v` to `out`.
pub fn append_vec(out: &mut Vec<char>, v: &Vec<char>)
    ensures
        final(out)@ == old(out)@ + v@,
{
    let ghost before = out@;
    let mut k: usize = 0;
    while k < v.len()
        invariant
            k <= v@.len(),
            out@ == before + v@.subrange(0, k as int),
        decreases v@.len() - k,
    {
        out.push(v[k]);
        assert(out@ =~= before + v@.subrange(0, k + 1));
        k = k + 1;
    }
    assert(v@.subrange(0, v@.len() as int) =~= v@);
}

/// Appends the JSON literal of `s`.
pub fn push_json_string(out: &mut Vec<char>, s: &str)
    ensures
        final(out)@ == old(out)@ + json_string_of(s@),
{
    let q = json_quote(s);
    append_chars(out, q.as_str());
}

/// Appends a decimal number.
pub fn push_number(out: &mut Vec<char>, n: u64)
    ensures
        final(out)@ == old(out)@ + decimal(n as nat),
{
    append_vec(out, &decimal_chars(n));
}

/// Appends a decimal number with its sign.
pub fn push_signed_number(out: &mut Vec<char>, n: i64)
    ensures
        final(out)@ == old(out)@ + signed_decimal(n as int),
{
    append_vec(out, &signed_decimal_chars(n));
}

/// Appends an optional number, `null` when absent.
pub fn push_opt_number(out: &mut Vec<char>, n: Option<u64>)
    ensures
        final(out)@ == old(out)@ + json_opt_number(n),
{
    match n {
        Some(v) => push_number(out, v),
        None => append_chars(out, "null"),
    }
}

/// Appends an optional string, `null` when absent.
pub fn push_opt_string(out: &mut Vec<char>, s: &Option<String>)
    ensures
        final(out)@ == old(out)@ + json_opt_string(*s),
{
    match s {
        Some(v) => push_json_string(out, v.as_str()),
        None => append_chars(out, "null"),
    }
}

/// Appends a JSON boolean.
pub fn push_bool(out: &mut Vec<char>, b: bool)
    ensures
        final(out)@ == old(out)@ + json_bool(b),
{
    if b {
        append_chars(out, "true");
    } else {
        append_chars(out, "false");
    }
}

/// Appends a JSON array of strings.
pub fn push_string_array(out: &mut Vec<char>, items: &Vec<String>)
    ensures
        final(out)@ == old(out)@ + json_string_array(items@),
{
    let ghost before = out@;
    append_chars(out, "[");
    let ghost head = out@;
    let mut i: usize = 0;
    while i < items.len()
        invariant
            i <= items@.len(),
            head == before + "["@,
            out@ == head + json_items(items@.subrange(0, i as int)),
        decreases items@.len() - i,
    {
        let ghost pre = items@.subrange(0, i as int);
        let ghost next = items@.subrange(0, i + 1);
        assert(next.drop_last() =~= pre);
        assert(next.last() == items@[i as int]);
        if i > 0 {
            append_chars(out, ",");
        }
        push_json_string(out, items[i].as_str());
        proof {
            if i == 0 {
                assert(pre =~= Seq::<String>::empty());
            }
            assert(out@ =~= head + json_items(next));
        }
        i = i + 1;
    }
    assert(items@.subrange(0, items@.len() as int) =~= items@);
    append_chars(out, "]");
    assert(out@ =~= before + json_string_array(items@));
}

} // verus!
