use mdbook_quiz_cairo_validate::assess::{assert_outcome, run_needed};
use mdbook_quiz_cairo_validate::outcome::{
    ExpectedOutcome, OutcomeSpans, ProcessOutcome, SourceSpan, ToolchainResult, ValidationContext,
};

fn spans() -> OutcomeSpans {
    OutcomeSpans {
        outcome: SourceSpan { offset: 100, len: 40 },
        compiles: SourceSpan { offset: 110, len: 4 },
        stdout: SourceSpan { offset: 125, len: 13 },
    }
}

fn process(success: bool, stdout: &str, stderr: &str) -> ProcessOutcome {
    ProcessOutcome { success, stdout: stdout.to_string(), stderr: stderr.to_string() }
}

fn expected(compiles: bool, stdout: Option<&str>) -> ExpectedOutcome {
    ExpectedOutcome { compiles, stdout: stdout.map(|s| s.to_string()) }
}

fn framed(output: &str) -> String {
    format!(
        "   Compiling runner_crate v0.1.0\n     Running runner_crate\n{}\nRun completed successfully, returning []\n",
        output
    )
}

fn validate(e: &ExpectedOutcome, build: ProcessOutcome, run: Option<ProcessOutcome>) -> ValidationContext {
    let mut cx = ValidationContext::new();
    let result = ToolchainResult { build, run };
    assert_outcome(&mut cx, e, &result, &spans());
    cx
}

#[test]
fn validate_tracing_passes() {
    let e = expected(true, Some("Hello world"));
    assert!(run_needed(&e, true));
    let cx = validate(&e, process(true, "", ""), Some(process(true, &framed("Hello world"), "")));
    assert!(!cx.has_errors());
}

#[test]
fn cairo_specific_validate_tracing_passes() {
    let e = expected(true, Some("1"));
    let cx = validate(&e, process(true, "", ""), Some(process(true, &framed("1"), "")));
    assert!(!cx.has_errors());
}

#[test]
fn validate_tracing_compile_fail() {
    let e = expected(true, Some(""));
    assert!(!run_needed(&e, false));
    let cx = validate(&e, process(false, "", "error: Unexpected argument type.\n"), None);
    assert!(cx.has_errors());
    let d = cx.diagnostics();
    assert_eq!(d[0].span, spans().compiles);
    assert_eq!(
        d[0].message,
        "program does not compile but doesCompile = true. scarb stderr:\n  error: Unexpected argument type.\n"
    );
    // the declared stdout key is reported on its own as well
    assert_eq!(d.len(), 2);
    assert_eq!(d[1].span, spans().outcome);
}

#[test]
fn validate_tracing_wrong_stdout() {
    let e = expected(true, Some("meep meep"));
    let cx = validate(&e, process(true, "", ""), Some(process(true, &framed("Hello world"), "")));
    assert!(cx.has_errors());
    let d = cx.diagnostics();
    assert_eq!(d.len(), 1);
    assert_eq!(d[0].span, spans().stdout);
    assert_eq!(
        d[0].message,
        "expected stdout:\n  meep meep\ndid not match actual stdout:\n  Hello world"
    );
}

#[test]
fn compile_failure_declared_gives_nothing() {
    let e = expected(false, None);
    let cx = validate(&e, process(false, "", "error: bad"), None);
    assert_eq!(cx.len(), 0);
}

#[test]
fn compile_failure_build_error_without_stdout_key() {
    let e = expected(true, None);
    let cx = validate(&e, process(false, "", "error: bad"), None);
    assert_eq!(cx.len(), 1);
    assert_eq!(cx.diagnostics()[0].span, spans().compiles);
}

#[test]
fn stdout_key_without_compiling_is_reported() {
    let e = expected(false, Some("x"));
    let cx = validate(&e, process(false, "", "error: bad"), None);
    assert_eq!(cx.len(), 1);
    assert_eq!(cx.diagnostics()[0].span, spans().outcome);
    assert_eq!(cx.diagnostics()[0].message, "program does not compile but contains a stdout key");
}

#[test]
fn unexpected_compile_success_is_reported_without_run() {
    let e = expected(false, None);
    assert!(!run_needed(&e, true));
    let cx = validate(&e, process(true, "", ""), None);
    let d = cx.diagnostics();
    assert_eq!(d.len(), 2);
    assert_eq!(d[0].span, spans().compiles);
    assert_eq!(d[0].message, "program compiles but doesCompile = false");
    assert_eq!(d[1].span, spans().outcome);
    assert_eq!(d[1].message, "program compiles but stdout is missing");
}

#[test]
fn missing_stdout_key_is_reported() {
    let e = expected(true, None);
    let cx = validate(&e, process(true, "", ""), Some(process(true, &framed("Hello world"), "")));
    assert_eq!(cx.len(), 1);
    assert_eq!(cx.diagnostics()[0].span, spans().outcome);
}

#[test]
fn run_failure_and_mismatch_are_both_reported() {
    let e = expected(true, Some("Hello world"));
    let cx = validate(&e, process(true, "", ""), Some(process(false, "", "panicked\nat main")));
    let d = cx.diagnostics();
    assert_eq!(d.len(), 2);
    assert_eq!(d[0].span, spans().outcome);
    assert_eq!(d[0].message, "program fails when executed. stderr:\n  panicked\n  at main");
    assert_eq!(d[1].span, spans().stdout);
    assert_eq!(d[1].message, "expected stdout:\n  Hello world\ndid not match actual stdout:\n");
}

#[test]
fn surrounding_whitespace_is_ignored_in_comparison() {
    let e = expected(true, Some("\n  Hello world \n"));
    let cx = validate(&e, process(true, "", ""), Some(process(true, &framed("Hello world"), "")));
    assert_eq!(cx.len(), 0);
}

#[test]
fn inner_whitespace_is_compared_exactly() {
    let e = expected(true, Some("Hello  world"));
    let cx = validate(&e, process(true, "", ""), Some(process(true, &framed("Hello world"), "")));
    assert_eq!(cx.len(), 1);
}

#[test]
fn validation_is_repeatable() {
    let e = expected(true, Some("meep meep"));
    let build = process(true, "", "");
    let run = Some(process(true, &framed("Hello world"), ""));
    let a = validate(&e, build.clone(), run.clone());
    let b = validate(&e, build, run);
    assert_eq!(a.len(), b.len());
    for i in 0..a.len() {
        assert_eq!(a.diagnostics()[i].span, b.diagnostics()[i].span);
        assert_eq!(a.diagnostics()[i].message, b.diagnostics()[i].message);
    }
}

#[test]
fn diagnostics_accumulate_across_exercises() {
    let mut cx = ValidationContext::new();
    let e = expected(true, Some("a"));
    let result = ToolchainResult { build: process(false, "", "e"), run: None };
    assert_outcome(&mut cx, &e, &result, &spans());
    assert_outcome(&mut cx, &e, &result, &spans());
    assert_eq!(cx.len(), 4);
    cx.error("custom".to_string(), SourceSpan { offset: 1, len: 2 });
    assert_eq!(cx.len(), 5);
    assert_eq!(cx.diagnostics()[4].message, "custom");
}
