use codex_autonomy::template::{
    debug_list, inject_approval_variables, inject_bugcrowd_approval_variables,
    inject_template_variables, render_tool_approval,
};

#[test]
fn driver_template_substitutes_every_placeholder() {
    let r = inject_template_variables("Task: {config_yaml}\nCtx: {context} {context}", "a: 1", "none");
    assert_eq!(r, "Task: a: 1\nCtx: none none");
}

#[test]
fn config_is_substituted_before_context() {
    let r = inject_template_variables("{config_yaml}", "see {context}", "X");
    assert_eq!(r, "see X");
}

#[test]
fn approval_template_uses_debug_forms() {
    let cmd = vec!["ls".to_string(), "-la".to_string()];
    let r = inject_approval_variables("Run {command} in {cwd}? {reason}", &cmd, "/tmp", &None);
    assert_eq!(r, "Run [\"ls\", \"-la\"] in \"/tmp\"? No reason provided");
    let r = inject_approval_variables("{reason}", &cmd, "/tmp", &Some("needs net".to_string()));
    assert_eq!(r, "needs net");
}

#[test]
fn debug_list_escapes_quotes() {
    assert_eq!(debug_list(&vec!["a\"b".to_string()]), "[\"a\\\"b\"]");
    assert_eq!(debug_list(&vec![]), "[]");
}

#[test]
fn tool_template_without_arguments() {
    let r = inject_bugcrowd_approval_variables("T={tool} A={arguments}", "bugcrowd_submit", &None);
    assert_eq!(r, "T=bugcrowd_submit A=No arguments provided");
}

#[test]
fn tool_template_with_arguments_pretty_prints_them() {
    let args: serde_json::Value = serde_json::from_str("{\"a\":1}").unwrap();
    let r = inject_bugcrowd_approval_variables("A={arguments}", "t", &Some(args));
    assert_eq!(r, "A={\n  \"a\": 1\n}");
    assert_eq!(render_tool_approval("{tool}:{arguments}", "x", "y"), "x:y");
}
