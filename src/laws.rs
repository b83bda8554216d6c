//! Properties of the diagnostics that `assert_outcome` appends, stated over
//! `findings`, which its contract names.

use vstd::prelude::*;
use crate::assess::{
    build_failed_message, findings, mismatch_message, quoted, ACTUAL_STDOUT, EXPECTED_STDOUT,
    UNEXPECTED_STDOUT,
};
use crate::normalize::normalized_spec;
use crate::outcome::{DiagnosticModel, ExpectedModel, OutcomeSpans, ToolchainModel};
use crate::text::trim_spec;

verus! {

/// A program that builds and runs successfully, declared to compile and to
/// print what it prints (both sides trimmed), gets no diagnostic.
pub proof fn lemma_matching_run_is_clean(e: ExpectedModel, t: ToolchainModel, spans: OutcomeSpans)
    requires
        e.compiles,
        e.stdout is Some,
        t.build.success,
        t.run is Some,
        t.run->0.success,
        trim_spec(normalized_spec(t.run->0.stdout)) == trim_spec(e.stdout->0),
    ensures
        findings(e, t, spans).len() == 0,
{
    assert(findings(e, t, spans) =~= Seq::<DiagnosticModel>::empty());
}

/// A program declared to compile, without a declared output, that does not
/// build gets exactly one diagnostic, at the `doesCompile` flag, quoting the
/// build's error output.
pub proof fn lemma_unexpected_build_failure(
    e: ExpectedModel,
    t: ToolchainModel,
    spans: OutcomeSpans,
)
    requires
        e.compiles,
        e.stdout is None,
        !t.build.success,
    ensures
        findings(e, t, spans).len() == 1,
        findings(e, t, spans)[0].span == spans.compiles,
        findings(e, t, spans)[0].message == build_failed_message(t.build.stderr),
{
    assert(findings(e, t, spans) =~= seq![
        DiagnosticModel { message: build_failed_message(t.build.stderr), span: spans.compiles },
    ]);
}

/// A program declared to compile that builds and runs successfully but
/// prints other text than declared (both sides trimmed) gets exactly one
/// diagnostic, at the `stdout` key, quoting the declared and the actual
/// output.
pub proof fn lemma_output_mismatch(e: ExpectedModel, t: ToolchainModel, spans: OutcomeSpans)
    requires
        e.compiles,
        e.stdout is Some,
        t.build.success,
        t.run is Some,
        t.run->0.success,
        trim_spec(normalized_spec(t.run->0.stdout)) != trim_spec(e.stdout->0),
    ensures
        ({
            let d = findings(e, t, spans);
            let x = e.stdout->0;
            let actual = normalized_spec(t.run->0.stdout);
            let m = d[0].message;
            let head = EXPECTED_STDOUT@.len() + quoted(x).len();
            &&& d.len() == 1
            &&& d[0].span == spans.stdout
            &&& m == mismatch_message(x, actual)
            &&& m.subrange(EXPECTED_STDOUT@.len() as int, head as int) == quoted(x)
            &&& m.subrange((head + ACTUAL_STDOUT@.len()) as int, m.len() as int) == quoted(actual)
        }),
{
    let x = e.stdout->0;
    let actual = normalized_spec(t.run->0.stdout);
    let m = mismatch_message(x, actual);
    assert(findings(e, t, spans) =~= seq![DiagnosticModel { message: m, span: spans.stdout }]);
    let head = EXPECTED_STDOUT@.len() + quoted(x).len();
    assert(m.subrange(EXPECTED_STDOUT@.len() as int, head as int) =~= quoted(x));
    assert(m.subrange((head + ACTUAL_STDOUT@.len()) as int, m.len() as int) =~= quoted(actual));
}

/// A program declared not to compile must declare no output: if it does,
/// at least one diagnostic is raised, and when the build indeed fails that
/// diagnostic, at the outcome, is raised even though the `doesCompile`
/// check passes.
pub proof fn lemma_output_without_compiling(
    e: ExpectedModel,
    t: ToolchainModel,
    spans: OutcomeSpans,
)
    requires
        !e.compiles,
        e.stdout is Some,
    ensures
        findings(e, t, spans).len() >= 1,
        !t.build.success ==> findings(e, t, spans) == seq![
            DiagnosticModel { message: UNEXPECTED_STDOUT@, span: spans.outcome },
        ],
{
    if !t.build.success {
        assert(findings(e, t, spans) =~= seq![
            DiagnosticModel { message: UNEXPECTED_STDOUT@, span: spans.outcome },
        ]);
    }
}

/// Validating the same declared outcome against the same observations twice
/// appends the same diagnostics, in the same order, to equal contexts.
pub proof fn lemma_validation_is_repeatable(
    before: Seq<DiagnosticModel>,
    e1: ExpectedModel,
    e2: ExpectedModel,
    t1: ToolchainModel,
    t2: ToolchainModel,
    spans: OutcomeSpans,
)
    requires
        e1 == e2,
        t1 == t2,
    ensures
        before + findings(e1, t1, spans) == before + findings(e2, t2, spans),
        findings(e1, t1, spans).len() == findings(e2, t2, spans).len(),
        forall|i: int|
            0 <= i < findings(e1, t1, spans).len() ==> #[trigger] findings(e1, t1, spans)[i].span
                == findings(e2, t2, spans)[i].span,
{
}

} // verus!
