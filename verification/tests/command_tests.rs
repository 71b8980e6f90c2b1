use extel::Invocation;

#[test]
fn tokenize_double_quoted_argument() {
    let invocation = Invocation::from_template("echo -n \"hello world\"");
    assert_eq!(invocation.program, "echo");
    assert_eq!(
        invocation.arguments,
        vec![String::from("-n"), String::from("hello world")]
    );
}

#[test]
fn tokenize_substituted_argument() {
    let substituted = format!("echo -n \"{}\"", "viva las vegas");
    let invocation = Invocation::from_template(substituted.as_str());
    assert_eq!(invocation.program, "echo");
    assert_eq!(
        invocation.arguments,
        vec![String::from("-n"), String::from("viva las vegas")]
    );
}

#[test]
fn tokenize_single_quoted_argument() {
    let invocation = Invocation::from_template("grep 'a phrase' file");
    assert_eq!(invocation.program, "grep");
    assert_eq!(
        invocation.arguments,
        vec![String::from("a phrase"), String::from("file")]
    );
}

#[test]
fn tokenize_no_arguments() {
    let invocation = Invocation::from_template("echo");
    assert_eq!(invocation.program, "echo");
    assert!(invocation.arguments.is_empty());
}

#[test]
fn tokenize_trims_surrounding_whitespace() {
    let invocation = Invocation::from_template("  echo -n  ");
    assert_eq!(invocation.program, "echo");
    assert_eq!(invocation.arguments, vec![String::from("-n")]);
}

#[test]
fn tokenize_unterminated_quote_emits_fragments() {
    let invocation = Invocation::from_template("grep \"foo bar");
    assert_eq!(invocation.program, "grep");
    assert_eq!(
        invocation.arguments,
        vec![String::from("foo"), String::from("bar")]
    );
}

#[test]
fn tokenize_bare_quote_is_its_own_argument() {
    let invocation = Invocation::from_template("echo \" x");
    assert_eq!(invocation.program, "echo");
    assert_eq!(
        invocation.arguments,
        vec![String::from("\""), String::from("x")]
    );
}

#[test]
fn tokenize_adjacent_spaces_keep_empty_token() {
    let invocation = Invocation::from_template("echo  a");
    assert_eq!(invocation.program, "echo");
    assert_eq!(
        invocation.arguments,
        vec![String::from(""), String::from("a")]
    );
}

#[test]
fn tokenize_all_whitespace_gives_empty_program() {
    let invocation = Invocation::from_template("   ");
    assert_eq!(invocation.program, "");
    assert!(invocation.arguments.is_empty());
}

#[test]
fn tokenize_resumes_after_closed_quote() {
    let invocation = Invocation::from_template("echo \"a\" b");
    assert_eq!(invocation.program, "echo");
    assert_eq!(
        invocation.arguments,
        vec![String::from("a"), String::from("b")]
    );
}

#[test]
fn tokenize_quoted_run_keeps_inner_spacing_as_single_spaces() {
    let invocation = Invocation::from_template("say 'one two three' done");
    assert_eq!(invocation.program, "say");
    assert_eq!(
        invocation.arguments,
        vec![String::from("one two three"), String::from("done")]
    );
}

#[test]
fn invocation_new_keeps_fields() {
    let invocation = Invocation::new(
        String::from("echo"),
        vec![String::from("-n"), String::from("hi")],
    );
    assert_eq!(invocation.program, "echo");
    assert_eq!(
        invocation.arguments,
        vec![String::from("-n"), String::from("hi")]
    );
}
