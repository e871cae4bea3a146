//! Tests for the text commands (replace, transform), the formatter
//! dispatch, the result sink, and flag parsing.
use cliputil::Delivery;
use cliputil::ExecError;
use cliputil::ExecutionOutcome;
use cliputil::FormatPlan;
use cliputil::TransformKind;
use cliputil::apply_transform;
use cliputil::finish_format;
use cliputil::format_plan;
use cliputil::parse_execute_args;
use cliputil::parse_format_args;
use cliputil::parse_transform;
use cliputil::plan_delivery;
use cliputil::replace_literal;

fn outcome(exit_success: bool, stdout: &[u8], stderr: &[u8]) -> ExecutionOutcome {
    ExecutionOutcome { exit_success, stdout: stdout.to_vec(), stderr: stderr.to_vec() }
}

#[test]
fn replace_substitutes_every_occurrence() {
    assert_eq!(replace_literal("foo foo baz", "foo", "bar"), "bar bar baz");
}

#[test]
fn replace_is_literal_and_non_overlapping() {
    assert_eq!(replace_literal("aaa", "aa", "b"), "ba");
    assert_eq!(replace_literal("abc", "x", "y"), "abc");
    assert_eq!(replace_literal("a.c", ".", "-"), "a-c");
    assert_eq!(replace_literal("", "x", "y"), "");
}

#[test]
fn replace_with_empty_pattern_inserts_everywhere() {
    assert_eq!(replace_literal("ab", "", "-"), "-a-b-");
    assert_eq!(replace_literal("", "", "-"), "-");
}

#[test]
fn title_case_capitalises_each_word() {
    assert_eq!(apply_transform(TransformKind::Title, "hello world"), "Hello World");
    assert_eq!(apply_transform(TransformKind::Title, ""), "");
    assert_eq!(apply_transform(TransformKind::Title, "  mIxEd   CASE  "), "Mixed Case");
}

#[test]
fn upper_and_lower_transforms_fold_the_whole_text() {
    assert_eq!(apply_transform(TransformKind::Upper, "hello World"), "HELLO WORLD");
    assert_eq!(apply_transform(TransformKind::Lower, "Hello WORLD"), "hello world");
}

#[test]
fn transform_names_resolve_exactly() {
    assert_eq!(parse_transform(&"upper".to_string()), Ok(TransformKind::Upper));
    assert_eq!(parse_transform(&"lower".to_string()), Ok(TransformKind::Lower));
    assert_eq!(parse_transform(&"title".to_string()), Ok(TransformKind::Title));
    assert_eq!(parse_transform(&"snake".to_string()), Err(ExecError::UnknownTransform));
}

#[test]
fn delivery_to_streams_passes_both_streams_verbatim() {
    match plan_delivery(outcome(true, b"out", b"err"), false) {
        Ok(Delivery::ToStreams { stdout, stderr }) => {
            assert_eq!(stdout, b"out".to_vec());
            assert_eq!(stderr, b"err".to_vec());
        },
        _ => panic!("expected delivery to the standard streams"),
    }
}

#[test]
fn delivery_to_clipboard_takes_stdout_only_as_text() {
    match plan_delivery(outcome(true, b"hi\n", b"noise"), true) {
        Ok(Delivery::ToClipboard { text }) => assert_eq!(text, "hi\n"),
        _ => panic!("expected delivery to the clipboard"),
    }
}

#[test]
fn clipboard_delivery_rejects_bytes_that_do_not_decode() {
    match plan_delivery(outcome(true, &[0xff, 0xfe], b""), true) {
        Err(e) => assert_eq!(e, ExecError::InvalidUtf8Output),
        _ => panic!("expected an encoding error"),
    }
}

#[test]
fn format_plan_picks_the_formatter_for_each_language() {
    match format_plan(&"python".to_string()) {
        Ok(FormatPlan::ViaStdin { command }) => {
            assert_eq!(command.program, "black");
            assert_eq!(command.args, vec!["--quiet".to_string(), "-".to_string()]);
        },
        _ => panic!("expected a stdin-fed formatter"),
    }
    match format_plan(&"rust".to_string()) {
        Ok(FormatPlan::ViaStdin { command }) => {
            assert_eq!(command.program, "rustfmt");
            assert!(command.args.is_empty());
        },
        _ => panic!("expected a stdin-fed formatter"),
    }
    match format_plan(&"c++".to_string()) {
        Ok(FormatPlan::ViaStdin { command }) => assert_eq!(command.program, "clang-format"),
        _ => panic!("expected the cpp alias to resolve"),
    }
    match format_plan(&"php".to_string()) {
        Ok(FormatPlan::ViaFile { program, fixed_args }) => {
            assert_eq!(program, "php-cs-fixer");
            assert_eq!(
                fixed_args,
                vec!["fix".to_string(), "--rules=@PSR2".to_string(), "--diff".to_string()],
            );
        },
        _ => panic!("expected a file-based formatter"),
    }
    match format_plan(&"fortran".to_string()) {
        Err(e) => assert_eq!(e, ExecError::NotSupportedLanguage),
        _ => panic!("expected an unsupported language"),
    }
}

#[test]
fn finish_format_returns_the_input_when_stdout_is_empty() {
    assert_eq!(finish_format("already neat", outcome(true, b"", b"")), Ok("already neat".to_string()));
}

#[test]
fn finish_format_returns_the_formatter_output() {
    assert_eq!(finish_format("x=1", outcome(true, b"x = 1\n", b"")), Ok("x = 1\n".to_string()));
}

#[test]
fn finish_format_propagates_failure_and_bad_encoding() {
    assert_eq!(
        finish_format("x", outcome(false, b"", b"syntax error")),
        Err(ExecError::RunFailed { stderr: b"syntax error".to_vec() }),
    );
    assert_eq!(
        finish_format("x", outcome(true, &[0xC0], b"")),
        Err(ExecError::InvalidUtf8Output),
    );
}

#[test]
fn every_error_kind_has_a_description() {
    let errors = [
        ExecError::NotSupportedLanguage,
        ExecError::EntryNameNotFound,
        ExecError::WorkspaceCreationFailed,
        ExecError::ToolchainNotFound { program: "xyz".to_string() },
        ExecError::CompileFailed { stderr: Vec::new() },
        ExecError::RunFailed { stderr: Vec::new() },
        ExecError::ClipboardUnavailable,
        ExecError::InvalidUtf8Output,
        ExecError::UnknownTransform,
    ];
    for e in errors {
        assert!(!e.describe().is_empty());
    }
    assert_eq!(ExecError::NotSupportedLanguage.describe(), "Unsupported language");
    assert_eq!(ExecError::EntryNameNotFound.describe(), "Could not find Java class name");
}

fn strings(items: &[&str]) -> Vec<String> {
    items.iter().map(|s| s.to_string()).collect()
}

#[test]
fn execute_flags_parse_with_defaults() {
    let opts = parse_execute_args(&Vec::new());
    assert_eq!(opts.language, "python");
    assert!(!opts.verbose);
    assert!(!opts.output_to_clipboard);
    assert!(opts.rest.is_empty());
}

#[test]
fn execute_flags_parse_language_switches_and_rest() {
    let opts = parse_execute_args(&strings(&["-l", "rust", "-v", "-o", "first", "-l"]));
    assert_eq!(opts.language, "rust");
    assert!(opts.verbose);
    assert!(opts.output_to_clipboard);
    assert_eq!(opts.rest, strings(&["first", "-l"]));

    let opts = parse_execute_args(&strings(&["--language", "java", "--verbose"]));
    assert_eq!(opts.language, "java");
    assert!(opts.verbose);
    assert!(!opts.output_to_clipboard);
    assert!(opts.rest.is_empty());
}

#[test]
fn execute_language_flag_without_a_value_is_ignored() {
    let opts = parse_execute_args(&strings(&["-v", "-l"]));
    assert_eq!(opts.language, "python");
    assert!(opts.verbose);
    assert!(opts.rest.is_empty());
}

#[test]
fn format_flags_parse_the_language() {
    assert_eq!(parse_format_args(&Vec::new()), "python");
    assert_eq!(parse_format_args(&strings(&["-l", "cpp"])), "cpp");
    assert_eq!(parse_format_args(&strings(&["--language", "php", "ignored"])), "php");
    assert_eq!(parse_format_args(&strings(&["stray", "-l", "cpp"])), "python");
}
