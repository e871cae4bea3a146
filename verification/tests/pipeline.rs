//! Scenario tests for the execution pipeline: registry lookup, entry-name
//! derivation, and the driver state machine.
use cliputil::DriverAction;
use cliputil::DriverEvent;
use cliputil::ExecError;
use cliputil::ExecutionOutcome;
use cliputil::ExecutionRequest;
use cliputil::Phase;
use cliputil::Strategy;
use cliputil::begin;
use cliputil::derive_entry_name;
use cliputil::resolve;

fn request(language: &str, source: &str, args: Vec<String>) -> ExecutionRequest {
    ExecutionRequest {
        language_id: language.to_string(),
        source_text: source.to_string(),
        passthrough_args: args,
        output_to_clipboard: false,
        verbose: false,
    }
}

fn ok_outcome(stdout: &[u8]) -> ExecutionOutcome {
    ExecutionOutcome { exit_success: true, stdout: stdout.to_vec(), stderr: Vec::new() }
}

fn failed_outcome(stderr: &[u8]) -> ExecutionOutcome {
    ExecutionOutcome { exit_success: false, stdout: Vec::new(), stderr: stderr.to_vec() }
}

#[test]
fn resolve_knows_every_supported_language() {
    let table = [
        ("python", "py", "python", None, Strategy::Interpreted),
        ("javascript", "js", "node", None, Strategy::Interpreted),
        ("rust", "rs", "rustc", None, Strategy::CompiledGeneric),
        ("cpp", "cpp", "g++", None, Strategy::CompiledGeneric),
        ("java", "java", "javac", Some("java"), Strategy::CompiledNamedEntry),
        ("php", "php", "php", None, Strategy::Interpreted),
    ];
    for (id, ext, tool, runtime, strategy) in table {
        let p = resolve(&id.to_string()).unwrap();
        assert_eq!(p.language_id, id);
        assert_eq!(p.file_extension, ext);
        assert!(!p.file_extension.is_empty());
        assert_eq!(p.tool, tool);
        assert_eq!(p.runtime.as_deref(), runtime);
        assert_eq!(p.strategy, strategy);
    }
}

#[test]
fn resolve_rejects_unknown_and_is_case_sensitive() {
    for id in ["cobol", "Python", "PYTHON", ""] {
        match resolve(&id.to_string()) {
            Err(ExecError::NotSupportedLanguage) => {},
            _ => panic!("expected {:?} to be unsupported", id),
        }
    }
}

#[test]
fn unsupported_language_fails_before_any_workspace() {
    let r = begin(request("cobol", "print 'hi'", Vec::new()));
    match r {
        Err(ExecError::NotSupportedLanguage) => {},
        other => panic!("expected NotSupportedLanguage, got {:?}", other.map(|_| ())),
    }
}

#[test]
fn interpreted_round_trip_delivers_stdout() {
    // The default language of the execute command is the interpreted one.
    let defaults = cliputil::parse_execute_args(&Vec::new());
    let mut d = begin(request(&defaults.language, "print(\"hi\")", Vec::new())).unwrap();
    assert_eq!(d.profile.language_id, "python");
    assert_eq!(d.profile.strategy, Strategy::Interpreted);
    assert_eq!(d.phase, Phase::AwaitWorkspace);
    assert!(!d.acquired);

    let action = d.step(DriverEvent::WorkspaceReady { root: "/tmp/scratch".to_string() });
    match action {
        DriverAction::StageSource { file_name } => assert_eq!(file_name, "temp_code.py"),
        _ => panic!("expected a staging action"),
    }

    let action = d.step(DriverEvent::SourceStaged);
    match action {
        DriverAction::Invoke { command } => {
            assert_eq!(command.program, "python");
            assert_eq!(command.args, vec!["/tmp/scratch/temp_code.py".to_string()]);
        },
        _ => panic!("expected the interpreter invocation"),
    }

    let action = d.step(DriverEvent::Invoked { outcome: ok_outcome(b"hi\n") });
    match action {
        DriverAction::Complete { outcome, release_workspace } => {
            assert!(release_workspace);
            assert!(outcome.exit_success);
            assert_eq!(String::from_utf8(outcome.stdout).unwrap(), "hi\n");
        },
        _ => panic!("expected completion"),
    }
    assert_eq!(d.phase, Phase::Finished);
}

#[test]
fn passthrough_args_come_after_the_staged_file() {
    let mut d = begin(
        request("php", "<?php echo 1;", vec!["--one".to_string(), "two".to_string()]),
    )
        .unwrap();
    d.step(DriverEvent::WorkspaceReady { root: "/ws".to_string() });
    let action = d.step(DriverEvent::SourceStaged);
    match action {
        DriverAction::Invoke { command } => {
            assert_eq!(command.program, "php");
            assert_eq!(
                command.args,
                vec!["/ws/temp_code.php".to_string(), "--one".to_string(), "two".to_string()],
            );
        },
        _ => panic!("expected the interpreter invocation"),
    }
}

#[test]
fn compile_failure_short_circuits_with_stderr_verbatim() {
    let mut d = begin(request("rust", "fn main() {", Vec::new())).unwrap();
    d.step(DriverEvent::WorkspaceReady { root: "/ws".to_string() });
    let action = d.step(DriverEvent::SourceStaged);
    match action {
        DriverAction::Invoke { command } => {
            assert_eq!(command.program, "rustc");
            assert_eq!(
                command.args,
                vec![
                    "/ws/temp_code.rs".to_string(),
                    "-o".to_string(),
                    "/ws/temp_executable".to_string(),
                ],
            );
        },
        _ => panic!("expected the compile invocation"),
    }
    let action = d.step(DriverEvent::Invoked { outcome: failed_outcome(b"expected `}`") });
    match action {
        DriverAction::Fail { error, release_workspace } => {
            assert!(release_workspace);
            assert_eq!(error, ExecError::CompileFailed { stderr: b"expected `}`".to_vec() });
        },
        _ => panic!("a failed compile must not reach the run stage"),
    }
    assert_eq!(d.phase, Phase::Finished);
}

#[test]
fn successful_compile_runs_the_produced_executable() {
    let mut d = begin(request("cpp", "int main() {}", vec!["alpha".to_string()])).unwrap();
    d.step(DriverEvent::WorkspaceReady { root: "/ws".to_string() });
    d.step(DriverEvent::SourceStaged);
    let action = d.step(DriverEvent::Invoked { outcome: ok_outcome(b"") });
    match action {
        DriverAction::Invoke { command } => {
            assert_eq!(command.program, "/ws/temp_executable");
            assert_eq!(command.args, vec!["alpha".to_string()]);
        },
        _ => panic!("expected the run invocation"),
    }
    let action = d.step(DriverEvent::Invoked { outcome: ok_outcome(b"done") });
    match action {
        DriverAction::Complete { outcome, .. } => assert_eq!(outcome.stdout, b"done".to_vec()),
        _ => panic!("expected completion"),
    }
}

#[test]
fn java_stages_under_the_derived_name_and_runs_with_classpath() {
    let source = "public class Foo { public static void main(String[] a) {} }";
    let mut d = begin(request("java", source, vec!["x".to_string()])).unwrap();
    let action = d.step(DriverEvent::WorkspaceReady { root: "/ws".to_string() });
    match action {
        DriverAction::StageSource { file_name } => assert_eq!(file_name, "Foo.java"),
        _ => panic!("expected a staging action"),
    }
    let action = d.step(DriverEvent::SourceStaged);
    match action {
        DriverAction::Invoke { command } => {
            assert_eq!(command.program, "javac");
            assert_eq!(command.args, vec!["/ws/Foo.java".to_string()]);
        },
        _ => panic!("expected the compile invocation"),
    }
    let action = d.step(DriverEvent::Invoked { outcome: ok_outcome(b"") });
    match action {
        DriverAction::Invoke { command } => {
            assert_eq!(command.program, "java");
            assert_eq!(
                command.args,
                vec!["-cp".to_string(), "/ws".to_string(), "Foo".to_string(), "x".to_string()],
            );
        },
        _ => panic!("expected the run invocation"),
    }
}

#[test]
fn java_without_a_class_declaration_fails_before_staging() {
    let r = begin(request("java", "interface Quiet {}", Vec::new()));
    match r {
        Err(ExecError::EntryNameNotFound) => {},
        other => panic!("expected EntryNameNotFound, got {:?}", other.map(|_| ())),
    }
}

#[test]
fn run_failure_reports_run_failed() {
    let mut d = begin(request("python", "import sys; sys.exit(3)", Vec::new())).unwrap();
    d.step(DriverEvent::WorkspaceReady { root: "/ws".to_string() });
    d.step(DriverEvent::SourceStaged);
    let action = d.step(DriverEvent::Invoked { outcome: failed_outcome(b"boom") });
    match action {
        DriverAction::Fail { error, release_workspace } => {
            assert!(release_workspace);
            assert_eq!(error, ExecError::RunFailed { stderr: b"boom".to_vec() });
        },
        _ => panic!("expected a run failure"),
    }
}

#[test]
fn missing_toolchain_is_reported_and_releases_the_workspace() {
    let mut d = begin(request("python", "print(1)", Vec::new())).unwrap();
    d.step(DriverEvent::WorkspaceReady { root: "/ws".to_string() });
    d.step(DriverEvent::SourceStaged);
    let action = d.step(DriverEvent::ToolchainMissing);
    match action {
        DriverAction::Fail { error, release_workspace } => {
            assert!(release_workspace);
            assert_eq!(error, ExecError::ToolchainNotFound { program: "python".to_string() });
        },
        _ => panic!("expected a toolchain failure"),
    }
}

#[test]
fn workspace_failure_is_terminal_and_releases_nothing() {
    let mut d = begin(request("python", "print(1)", Vec::new())).unwrap();
    let action = d.step(DriverEvent::WorkspaceFailed);
    match action {
        DriverAction::Fail { error, release_workspace } => {
            assert!(!release_workspace);
            assert_eq!(error, ExecError::WorkspaceCreationFailed);
        },
        _ => panic!("expected a workspace failure"),
    }
    assert_eq!(d.phase, Phase::Finished);
}

#[test]
fn entry_name_is_the_first_declared_class() {
    assert_eq!(derive_entry_name("public class Foo { }"), Some("Foo".to_string()));
    assert_eq!(
        derive_entry_name("// header\npublic class Bar2_x extends Y { }"),
        Some("Bar2_x".to_string()),
    );
    assert_eq!(derive_entry_name("public\t \nclass\n Deep {}"), Some("Deep".to_string()));
    assert_eq!(
        derive_entry_name("public class A {} public class B {}"),
        Some("A".to_string()),
    );
}

#[test]
fn entry_name_derivation_fails_without_the_pattern() {
    assert_eq!(derive_entry_name(""), None);
    assert_eq!(derive_entry_name("class Foo {}"), None);
    assert_eq!(derive_entry_name("publicclass Foo {}"), None);
    assert_eq!(derive_entry_name("public class {}"), None);
    assert_eq!(derive_entry_name("public class"), None);
}
