use cargo_metadata::diagnostic::DiagnosticLevel;
use dx_build::error::BuildError;
use dx_build::events::{drain, invocation_text, is_error_line, BuildEvent, BuildStatus, EventParser};

fn text(s: &str) -> BuildEvent {
    BuildEvent::TextLine(s.to_string())
}

fn exe(p: &str) -> BuildEvent {
    BuildEvent::Artifact { executable: Some(p.to_string()), target_name: "app".to_string() }
}

#[test]
fn error_latch_is_sticky() {
    let mut p = EventParser::new(3);
    assert!(matches!(p.handle_event(text("Compiling foo")), Ok(BuildStatus::Message(_))));
    assert!(matches!(p.handle_event(text("  error: mismatched types")), Ok(BuildStatus::Error(_))));
    assert!(matches!(p.handle_event(text("  --> src/main.rs:3:5")), Ok(BuildStatus::Error(_))));
    assert!(matches!(p.handle_event(text("all fine here")), Ok(BuildStatus::Error(_))));
    assert!(p.emitting_error);
}

#[test]
fn lines_before_error_stay_messages() {
    let mut p = EventParser::new(0);
    let r = p.handle_event(text("warning: unused"));
    assert!(matches!(r, Ok(BuildStatus::Message(ref l)) if l == "warning: unused"));
    assert!(!p.emitting_error);
    assert!(is_error_line("\t error: x"));
    assert!(!is_error_line("an error: x"));
}

#[test]
fn running_line_is_captured() {
    let line = "Running `rustc --crate-name foo -O`";
    assert_eq!(invocation_text(line), Some("rustc --crate-name foo -O"));
    let mut p = EventParser::new(1);
    let r = p.handle_event(text(line));
    assert!(matches!(r, Ok(BuildStatus::Message(_))));
    assert_eq!(p.direct_rustc, vec![vec!["rustc", "--crate-name", "foo", "-O"]]);
}

#[test]
fn running_line_through_parser() {
    let mut p = EventParser::new(1);
    let r = p.handle_line("     Running `rustc --crate-name 'my crate' --edition=2021`  ");
    assert!(matches!(r, Ok(BuildStatus::Message(_))));
    assert_eq!(p.direct_rustc, vec![vec!["rustc", "--crate-name", "my crate", "--edition=2021"]]);
}

#[test]
fn unbalanced_invocation_is_skipped() {
    let mut p = EventParser::new(1);
    p.handle_event(text("Running `rustc \"oops`")).unwrap();
    assert!(p.direct_rustc.is_empty());
    assert_eq!(invocation_text("Compiling foo"), None);
    assert_eq!(invocation_text("Running `Running `x``"), Some("x"));
}

#[test]
fn last_artifact_wins() {
    let r = drain(vec![exe("/a/first"), exe("/a/second")], 2).unwrap();
    assert_eq!(r.exe, "/a/second");
}

#[test]
fn failure_beats_recorded_executable() {
    let r = drain(vec![exe("/a/app"), BuildEvent::Finished { success: false }], 1);
    assert!(matches!(r, Err(BuildError::CargoFailed)));
    let mut p = EventParser::new(1);
    p.handle_event(exe("/a/app")).unwrap();
    assert_eq!(p.handle_event(BuildEvent::Finished { success: false }).unwrap_err(), BuildError::CargoFailed);
}

#[test]
fn missing_executable_is_an_error() {
    let r = drain(vec![BuildEvent::ScriptExecuted, BuildEvent::Finished { success: true }], 1);
    assert!(matches!(r, Err(BuildError::NoExecutable)));
}

#[test]
fn progress_counts_units() {
    let mut p = EventParser::new(4);
    p.handle_event(BuildEvent::ScriptExecuted).unwrap();
    let r = p.handle_event(BuildEvent::Artifact { executable: None, target_name: "serde".to_string() });
    match r {
        Ok(BuildStatus::Progress { compiled, total, name }) => {
            assert_eq!((compiled, total, name.as_str()), (2, 4, "serde"));
        }
        _ => panic!("expected progress"),
    }
    let d = p.handle_event(BuildEvent::Diagnostic {
        level: DiagnosticLevel::Warning,
        code: None,
        message: "m".to_string(),
        rendered: None,
    });
    assert!(matches!(d, Ok(BuildStatus::Diagnostic { .. })));
    assert_eq!(p.units_compiled, 2);
}

#[test]
fn drain_collects_invocations() {
    let r = drain(
        vec![text("Running `rustc a`"), exe("/x/app"), text("Running `rustc b c`"), BuildEvent::Other],
        3,
    )
    .unwrap();
    assert_eq!(r.rustc_args, vec![vec!["rustc", "a"], vec!["rustc", "b", "c"]]);
    assert_eq!(r.exe, "/x/app");
}

#[test]
fn json_lines_are_parsed() {
    let mut p = EventParser::new(1);
    let r = p.handle_line(r#"{"reason":"build-finished","success":false}"#);
    assert_eq!(r.unwrap_err(), BuildError::CargoFailed);
    let mut q = EventParser::new(1);
    assert!(matches!(q.handle_line(r#"{"reason":"build-finished","success":true}"#), Ok(BuildStatus::Quiet)));
    assert!(matches!(q.handle_line(""), Ok(BuildStatus::Quiet)));
    assert!(matches!(q.handle_line("{not json"), Ok(BuildStatus::Message(ref l)) if l == "{not json"));
}

#[test]
fn executable_artifacts_are_not_units() {
    let mut p = EventParser::new(5);
    assert!(matches!(p.handle_event(exe("/a/app")), Ok(BuildStatus::Quiet)));
    assert_eq!(p.units_compiled, 0);
    let r = p.handle_event(BuildEvent::Artifact { executable: None, target_name: "lib".to_string() });
    assert!(matches!(r, Ok(BuildStatus::Progress { compiled: 1, total: 5, .. })));
    assert_eq!(p.output_location.as_deref(), Some("/a/app"));
}

#[test]
fn deeply_nested_line_is_text() {
    let mut p = EventParser::new(1);
    let deep = format!("{{\"reason\":\"x\",\"a\":{}", "[".repeat(300_000));
    assert!(matches!(p.handle_line(&deep), Ok(BuildStatus::Message(ref l)) if *l == deep));
    assert!(p.direct_rustc.is_empty() && !p.emitting_error && p.units_compiled == 0);
    let bracketed = format!("error: {}", "[".repeat(300));
    assert!(matches!(p.handle_line(&bracketed), Ok(BuildStatus::Error(_))));
    assert!(p.emitting_error);
}

#[test]
fn ansi_rendered_diagnostic_is_forwarded() {
    let block = "\\u001b[0m\\u001b[1m\\u001b[38;5;9merror[E0308]\\u001b[0m\\u001b[0m\\u001b[1m: mismatched types\\u001b[0m\\n  \\u001b[0m\\u001b[1m\\u001b[38;5;12m--> \\u001b[0m\\u001b[0msrc/main.rs:3:18\\n";
    let rendered = block.repeat(12);
    let mut line = String::new();
    line.push_str("{\"reason\":\"compiler-message\",\"package_id\":\"demo 0.1.0 (path+file:///w/demo)\",");
    line.push_str("\"target\":{\"name\":\"demo\",\"kind\":[\"bin\"],\"crate_types\":[\"bin\"],");
    line.push_str("\"src_path\":\"/w/demo/src/main.rs\",\"edition\":\"2021\"},");
    line.push_str("\"message\":{\"message\":\"mismatched types\",\"code\":{\"code\":\"E0308\",\"explanation\":null},");
    line.push_str("\"level\":\"error\",\"spans\":[],\"children\":[],\"rendered\":\"");
    line.push_str(&rendered);
    line.push_str("\"}}");
    assert!(line.matches('[').count() > 128);
    let mut p = EventParser::new(1);
    match p.handle_line(&line) {
        Ok(BuildStatus::Diagnostic { level, code, message, rendered }) => {
            assert_eq!(level, DiagnosticLevel::Error);
            assert_eq!(code.as_deref(), Some("E0308"));
            assert_eq!(message, "mismatched types");
            let r = rendered.unwrap();
            assert!(r.starts_with("\u{1b}[0m\u{1b}[1m\u{1b}[38;5;9merror[E0308]"));
            assert_eq!(r.matches("mismatched types").count(), 12);
        }
        _ => panic!("expected a diagnostic"),
    }
    assert!(!p.emitting_error);
}
