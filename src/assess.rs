//! The comparison of a declared outcome with the observed one.

use vstd::prelude::*;
use vstd::string::*;
use crate::normalize::{normalize_run_output, normalized_spec};
use crate::outcome::{
    DiagnosticModel, ExpectedModel, ExpectedOutcome, OutcomeSpans, ProcessModel, ProcessOutcome,
    SourceSpan, ToolchainModel, ToolchainResult, ValidationContext,
};
use crate::text::{trim, trim_spec};

verus! {

pub const COMPILES_BUT_FLAG_FALSE: &'static str = "program compiles but doesCompile = false";

pub const STDOUT_MISSING: &'static str = "program compiles but stdout is missing";

pub const RUN_FAILED: &'static str = "program fails when executed. stderr:\n";

pub const EXPECTED_STDOUT: &'static str = "expected stdout:\n";

pub const ACTUAL_STDOUT: &'static str = "\ndid not match actual stdout:\n";

pub const BUILD_FAILED: &'static str = "program does not compile but doesCompile = true. scarb stderr:\n";

pub const UNEXPECTED_STDOUT: &'static str = "program does not compile but contains a stdout key";

/// The prefix put before each line of quoted text in a message.
pub const INDENT: &'static str = "  ";

/// What `textwrap::indent` returns for `s` and `prefix`.
pub uninterp spec fn indented(s: Seq<char>, prefix: Seq<char>) -> Seq<char>;

/// Relies on `textwrap::indent`: `prefix` put before each line of `s`, the
/// result a function of the two arguments.
#[verifier::external_body]
fn indent(s: &str, prefix: &str) -> (r: String)
    ensures
        r@ == indented(s@, prefix@),
{
    textwrap::indent(s, prefix)
}

/// `text` quoted in a message.
pub open spec fn quoted(text: Seq<char>) -> Seq<char> {
    indented(text, INDENT@)
}

pub open spec fn run_failed_message(stderr: Seq<char>) -> Seq<char> {
    RUN_FAILED@ + quoted(stderr)
}

pub open spec fn build_failed_message(stderr: Seq<char>) -> Seq<char> {
    BUILD_FAILED@ + quoted(stderr)
}

pub open spec fn mismatch_message(expected: Seq<char>, actual: Seq<char>) -> Seq<char> {
    EXPECTED_STDOUT@ + quoted(expected) + ACTUAL_STDOUT@ + quoted(actual)
}

/// No diagnostic when `ok` holds, else the one given.
pub open spec fn check(ok: bool, message: Seq<char>, span: SourceSpan) -> Seq<DiagnosticModel> {
    if ok {
        Seq::empty()
    } else {
        seq![DiagnosticModel { message, span }]
    }
}

/// The diagnostics on an attempted run: it must succeed, and the program
/// output, trimmed, must equal the declared output, trimmed.
pub open spec fn run_findings(
    e: ExpectedModel,
    run: ProcessModel,
    spans: OutcomeSpans,
) -> Seq<DiagnosticModel> {
    check(run.success, run_failed_message(run.stderr), spans.outcome) + match e.stdout {
        Some(x) => {
            let actual = normalized_spec(run.stdout);
            check(trim_spec(actual) == trim_spec(x), mismatch_message(x, actual), spans.stdout)
        },
        None => Seq::empty(),
    }
}

/// The diagnostics that a declared outcome and an observed one give, in the
/// order the checks are made.
pub open spec fn findings(
    e: ExpectedModel,
    t: ToolchainModel,
    spans: OutcomeSpans,
) -> Seq<DiagnosticModel> {
    if t.build.success {
        check(e.compiles, COMPILES_BUT_FLAG_FALSE@, spans.compiles) + check(
            e.stdout is Some,
            STDOUT_MISSING@,
            spans.outcome,
        ) + match t.run {
            Some(run) => run_findings(e, run, spans),
            None => Seq::empty(),
        }
    } else {
        check(!e.compiles, build_failed_message(t.build.stderr), spans.compiles) + check(
            e.stdout is None,
            UNEXPECTED_STDOUT@,
            spans.outcome,
        )
    }
}

/// `head` followed by `text` quoted.
fn quote_after(head: &str, text: &str) -> (r: String)
    ensures
        r@ == head@ + quoted(text@),
{
    let mut m = String::from_str(head);
    let q = indent(text, INDENT);
    m.append(q.as_str());
    m
}

fn mismatch(expected: &str, actual: &str) -> (r: String)
    ensures
        r@ == mismatch_message(expected@, actual@),
{
    let mut m = quote_after(EXPECTED_STDOUT, expected);
    let tail = quote_after(ACTUAL_STDOUT, actual);
    m.append(tail.as_str());
    assert(m@ =~= mismatch_message(expected@, actual@));
    m
}

/// Whether the staged program is to be run: only once it has built, and
/// only when the author declares that it compiles.
pub fn run_needed(expected: &ExpectedOutcome, build_succeeded: bool) -> (r: bool)
    ensures
        r == (build_succeeded && expected.compiles),
{
    build_succeeded && expected.compiles
}

fn assess_run(
    cx: &mut ValidationContext,
    expected: &ExpectedOutcome,
    run: &ProcessOutcome,
    spans: &OutcomeSpans,
)
    ensures
        final(cx)@ == old(cx)@ + run_findings(expected@, run@, *spans),
{
    let ghost start = cx@;
    if !run.success {
        cx.error(quote_after(RUN_FAILED, run.stderr.as_str()), spans.outcome);
    }
    let ghost mid = cx@;
    assert(mid =~= start + check(run.success, run_failed_message(run@.stderr), spans.outcome));
    match &expected.stdout {
        Some(x) => {
            let actual = normalize_run_output(run.stdout.as_str());
            let a = trim(actual.as_str());
            let b = trim(x.as_str());
            if a != b {
                cx.error(mismatch(x.as_str(), actual.as_str()), spans.stdout);
            }
        },
        None => {},
    }
    assert(cx@ =~= start + run_findings(expected@, run@, *spans));
}

/// Compares a declared outcome with the observed one and appends a
/// diagnostic for each check that fails, in the order the checks are made.
pub fn assert_outcome(
    cx: &mut ValidationContext,
    expected: &ExpectedOutcome,
    result: &ToolchainResult,
    spans: &OutcomeSpans,
)
    ensures
        final(cx)@ == old(cx)@ + findings(expected@, result@, *spans),
{
    let ghost start = cx@;
    if result.build.success {
        if !expected.compiles {
            cx.error(String::from_str(COMPILES_BUT_FLAG_FALSE), spans.compiles);
        }
        let ghost s1 = cx@;
        assert(s1 =~= start + check(expected.compiles, COMPILES_BUT_FLAG_FALSE@, spans.compiles));
        if expected.stdout.is_none() {
            cx.error(String::from_str(STDOUT_MISSING), spans.outcome);
        }
        let ghost s2 = cx@;
        assert(s2 =~= s1 + check(expected@.stdout is Some, STDOUT_MISSING@, spans.outcome));
        match &result.run {
            Some(run) => assess_run(cx, expected, run, spans),
            None => {},
        }
        assert(cx@ =~= start + findings(expected@, result@, *spans));
    } else {
        if expected.compiles {
            cx.error(quote_after(BUILD_FAILED, result.build.stderr.as_str()), spans.compiles);
        }
        let ghost s1 = cx@;
        assert(s1 =~= start + check(
            !expected.compiles,
            build_failed_message(result@.build.stderr),
            spans.compiles,
        ));
        if expected.stdout.is_some() {
            cx.error(String::from_str(UNEXPECTED_STDOUT), spans.outcome);
        }
        assert(cx@ =~= start + findings(expected@, result@, *spans));
    }
}

} // verus!
