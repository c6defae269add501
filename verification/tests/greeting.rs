use hello_world::greeting;
use hello_world::parseNameFromArgs;
use hello_world::run;
use hello_world::str_is_blank;

fn argv(items: &[&str]) -> Vec<String> {
    items.iter().map(|s| s.to_string()).collect()
}

#[test]
fn no_argument_greets_world() {
    assert_eq!(run(&argv(&["prog"])), Ok("Hello, World!".to_string()));
}

#[test]
fn empty_argument_list_greets_world() {
    assert_eq!(run(&argv(&[])), Ok("Hello, World!".to_string()));
}

#[test]
fn one_name_is_greeted_verbatim() {
    assert_eq!(run(&argv(&["prog", "Alice"])), Ok("Hello, Alice!".to_string()));
}

#[test]
fn surrounding_whitespace_is_kept_verbatim() {
    assert_eq!(run(&argv(&["prog", " Bob "])), Ok("Hello,  Bob !".to_string()));
}

#[test]
fn blank_argument_greets_world() {
    assert_eq!(run(&argv(&["prog", "  "])), Ok("Hello, World!".to_string()));
}

#[test]
fn empty_argument_greets_world() {
    assert_eq!(run(&argv(&["prog", ""])), Ok("Hello, World!".to_string()));
}

#[test]
fn unicode_whitespace_argument_greets_world() {
    assert_eq!(run(&argv(&["prog", "\u{3000}\u{2003}\u{00A0}"])), Ok("Hello, World!".to_string()));
}

#[test]
fn two_arguments_fail() {
    let result = run(&argv(&["prog", "Alice", "Bob"]));
    let line = result.expect_err("two positional arguments must be rejected");
    assert!(line.starts_with("[ERROR] "));
    assert!(line.contains("parseNameFromArgs"));
    assert!(line.contains("Alice"));
    assert!(line.contains("Bob"));
    assert!(line.contains("3"));
}

#[test]
fn error_carries_the_received_arguments() {
    let args = argv(&["prog", "a", "b"]);
    let error = parseNameFromArgs(&args).expect_err("three tokens must be rejected");
    assert_eq!(error.functionName, "parseNameFromArgs");
    assert_eq!(error.expectedUsage, "cargo run -- [name]");
    assert_eq!(error.args, args);
}

#[test]
fn error_message_is_rendered_exactly() {
    let args = argv(&["prog", "a", "b"]);
    let error = parseNameFromArgs(&args).expect_err("three tokens must be rejected");
    assert_eq!(
        error.message(),
        "Invalid arguments in parseNameFromArgs.\n  expected: cargo run -- [name]\n  actual args(3): [\"prog\", \"a\", \"b\"]"
    );
}

#[test]
fn error_line_is_rendered_exactly() {
    let result = run(&argv(&["prog", "a", "b"]));
    let line = result.expect_err("three tokens must be rejected");
    assert_eq!(
        line,
        "[ERROR] Invalid arguments in parseNameFromArgs.\n  expected: cargo run -- [name]\n  actual args(3): [\"prog\", \"a\", \"b\"]"
    );
}

#[test]
fn argument_count_is_rendered_in_decimal() {
    let args = argv(&["prog", "a", "b", "c", "d", "e", "f", "g", "h", "i", "j", "k"]);
    let error = parseNameFromArgs(&args).expect_err("twelve tokens must be rejected");
    assert!(error.message().contains("actual args(12)"));
}

#[test]
fn parser_defaults_to_world_without_a_name() {
    assert_eq!(parseNameFromArgs(&argv(&["prog"])).unwrap(), "World");
}

#[test]
fn parser_returns_the_name_untrimmed() {
    assert_eq!(parseNameFromArgs(&argv(&["prog", "\tAlice\n"])).unwrap(), "\tAlice\n");
}

#[test]
fn identical_runs_agree() {
    let ok_args = argv(&["prog", "Alice"]);
    assert_eq!(run(&ok_args), run(&ok_args));
    let err_args = argv(&["prog", "a", "b"]);
    assert_eq!(run(&err_args), run(&err_args));
}

#[test]
fn greeting_is_rendered_exactly() {
    assert_eq!(greeting("Alice"), "Hello, Alice!");
}

#[test]
fn blankness_is_decided_by_whitespace_alone() {
    assert!(str_is_blank(""));
    assert!(str_is_blank(" \t\r\n"));
    assert!(str_is_blank("\u{1680}\u{2028}\u{2029}\u{202F}\u{205F}\u{0085}"));
    assert!(!str_is_blank("a"));
    assert!(!str_is_blank(" x "));
}
