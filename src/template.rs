//! Prompt templates: placeholders such as `{context}` substituted with values.
use vstd::prelude::*;
use crate::text::{append_chars, chars_of, replace_all, replaced, string_of};

verus! {

/// What `{:?}` writes for a string: the quoted string with Rust's debug escapes.
pub uninterp spec fn debug_of_str(s: Seq<char>) -> Seq<char>;

/// Relies on the `Debug` impl of `str`: the result depends on the characters alone.
#[verifier::external_body]
pub(crate) fn debug_str(s: &str) -> (r: String)
    ensures
        r@ == debug_of_str(s@),
{
    format!("{:?}", s)
}

/// Relies on `serde_json::to_string_pretty` to write a JSON value with indentation.
#[verifier::external_body]
fn json_pretty(v: &serde_json::Value) -> (r: String) {
    serde_json::to_string_pretty(v).unwrap_or_default()
}

/// The items of a debug-formatted list after the first, each preceded by `", "`.
pub open spec fn debug_items(items: Seq<String>) -> Seq<char>
    decreases items.len(),
{
    if items.len() == 0 {
        Seq::empty()
    } else if items.len() == 1 {
        debug_of_str(items[0]@)
    } else {
        debug_items(items.drop_last()) + ", "@ + debug_of_str(items.last()@)
    }
}

/// What `{:?}` writes for a list of strings: `["a", "b"]`.
pub open spec fn debug_of_list(items: Seq<String>) -> Seq<char> {
    "["@ + debug_items(items) + "]"@
}

/// The debug rendering of a list of strings, as `{:?}` writes a `Vec<String>`.
pub fn debug_list(items: &Vec<String>) -> (r: String)
    ensures
        r@ == debug_of_list(items@),
{
    let mut out: Vec<char> = chars_of("[");
    let ghost head = out@;
    let mut i: usize = 0;
    while i < items.len()
        invariant
            i <= items@.len(),
            head == "["@,
            out@ == head + debug_items(items@.subrange(0, i as int)),
        decreases items@.len() - i,
    {
        let ghost pre = items@.subrange(0, i as int);
        let ghost next = items@.subrange(0, i + 1);
        assert(next.drop_last() =~= pre);
        assert(next.last() == items@[i as int]);
        if i > 0 {
            append_chars(&mut out, ", ");
        }
        let d = debug_str(items[i].as_str());
        append_chars(&mut out, d.as_str());
        proof {
            if i == 0 {
                assert(pre =~= Seq::<String>::empty());
                assert(out@ =~= head + debug_items(next));
            } else {
                assert(out@ =~= head + debug_items(next));
            }
        }
        i = i + 1;
    }
    assert(items@.subrange(0, items@.len() as int) =~= items@);
    append_chars(&mut out, "]");
    string_of(&out)
}

/// `template` with `{config_yaml}` and then `{context}` substituted.
pub open spec fn driver_prompt(template: Seq<char>, config_yaml: Seq<char>, context: Seq<char>) -> Seq<char> {
    replaced(replaced(template, "{config_yaml}"@, config_yaml), "{context}"@, context)
}

/// Substitutes the task configuration and the conversation so far into a
/// turn-generation template.
pub fn inject_template_variables(template: &str, config_yaml: &str, context: &str) -> (r: String)
    ensures
        r@ == driver_prompt(template@, config_yaml@, context@),
{
    let p1 = chars_of("{config_yaml}");
    let p2 = chars_of("{context}");
    proof {
        reveal_strlit("{config_yaml}");
        reveal_strlit("{context}");
    }
    let step = replace_all(&chars_of(template), &p1, &chars_of(config_yaml));
    string_of(&replace_all(&step, &p2, &chars_of(context)))
}

/// The text that stands for a missing reason.
pub open spec fn reason_text(reason: Option<String>) -> Seq<char> {
    match reason {
        Some(r) => r@,
        None => "No reason provided"@,
    }
}

/// `template` with `{command}`, `{cwd}` and `{reason}` substituted, in that order.
pub open spec fn approval_prompt(
    template: Seq<char>,
    command: Seq<String>,
    cwd: Seq<char>,
    reason: Option<String>,
) -> Seq<char> {
    replaced(
        replaced(
            replaced(template, "{command}"@, debug_of_list(command)),
            "{cwd}"@,
            debug_of_str(cwd),
        ),
        "{reason}"@,
        reason_text(reason),
    )
}

/// Renders the decision request for a command that the runtime wants to run.
pub fn inject_approval_variables(
    template: &str,
    command: &Vec<String>,
    cwd: &str,
    reason: &Option<String>,
) -> (r: String)
    ensures
        r@ == approval_prompt(template@, command@, cwd@, *reason),
{
    let p1 = chars_of("{command}");
    let p2 = chars_of("{cwd}");
    let p3 = chars_of("{reason}");
    proof {
        reveal_strlit("{command}");
        reveal_strlit("{cwd}");
        reveal_strlit("{reason}");
    }
    let command_str = debug_list(command);
    let cwd_str = debug_str(cwd);
    let reason_str = match reason {
        Some(r) => chars_of(r.as_str()),
        None => chars_of("No reason provided"),
    };
    let s1 = replace_all(&chars_of(template), &p1, &chars_of(command_str.as_str()));
    let s2 = replace_all(&s1, &p2, &chars_of(cwd_str.as_str()));
    string_of(&replace_all(&s2, &p3, &reason_str))
}

/// `template` with `{tool}` and then `{arguments}` substituted.
pub open spec fn tool_approval_prompt(template: Seq<char>, tool: Seq<char>, arguments: Seq<char>) -> Seq<char> {
    replaced(replaced(template, "{tool}"@, tool), "{arguments}"@, arguments)
}

/// Renders the decision request for a call of the high-risk tool, given the text of
/// its arguments.
pub fn render_tool_approval(template: &str, tool: &str, arguments: &str) -> (r: String)
    ensures
        r@ == tool_approval_prompt(template@, tool@, arguments@),
{
    let p1 = chars_of("{tool}");
    let p2 = chars_of("{arguments}");
    proof {
        reveal_strlit("{tool}");
        reveal_strlit("{arguments}");
    }
    let s1 = replace_all(&chars_of(template), &p1, &chars_of(tool));
    string_of(&replace_all(&s1, &p2, &chars_of(arguments)))
}

/// Renders the decision request for a call of the high-risk tool: its arguments are
/// written as pretty-printed JSON, or as a notice when there are none.
pub fn inject_bugcrowd_approval_variables(
    template: &str,
    tool: &str,
    arguments: &Option<serde_json::Value>,
) -> (r: String)
    ensures
        arguments is None ==> r@ == tool_approval_prompt(
            template@,
            tool@,
            "No arguments provided"@,
        ),
        arguments is Some ==> exists|a: Seq<char>| r@ == tool_approval_prompt(template@, tool@, a),
{
    match arguments {
        Some(v) => {
            let a = json_pretty(v);
            render_tool_approval(template, tool, a.as_str())
        },
        None => render_tool_approval(template, tool, "No arguments provided"),
    }
}

} // verus!
