//! The declared outcome of an exercise, what the toolchain observed, and the
//! diagnostics raised where the two disagree.

use vstd::prelude::*;
use vstd::string::*;
use crate::normalize::option_view;

verus! {

/// A range of bytes in the authoring document.
#[derive(Clone, Copy, Debug, PartialEq, Eq, Structural)]
pub struct SourceSpan {
    pub offset: usize,
    pub len: usize,
}

/// Where the fields of a declared outcome were written: the outcome as a
/// whole, its `doesCompile` flag and its `stdout` key (meaningful only when
/// that key is present).
#[derive(Clone, Copy, Debug, PartialEq, Eq, Structural)]
pub struct OutcomeSpans {
    pub outcome: SourceSpan,
    pub compiles: SourceSpan,
    pub stdout: SourceSpan,
}

/// What the author declares of a program: whether it compiles and, if it
/// runs, what it prints.
#[derive(Clone, Debug)]
pub struct ExpectedOutcome {
    pub compiles: bool,
    pub stdout: Option<String>,
}

/// The mathematical value of an `ExpectedOutcome`.
pub struct ExpectedModel {
    pub compiles: bool,
    pub stdout: Option<Seq<char>>,
}

impl View for ExpectedOutcome {
    type V = ExpectedModel;

    open spec fn view(&self) -> ExpectedModel {
        ExpectedModel { compiles: self.compiles, stdout: option_view(self.stdout) }
    }
}

/// The exit status and captured output of one toolchain process.
#[derive(Clone, Debug)]
pub struct ProcessOutcome {
    pub success: bool,
    pub stdout: String,
    pub stderr: String,
}

/// The mathematical value of a `ProcessOutcome`.
pub struct ProcessModel {
    pub success: bool,
    pub stdout: Seq<char>,
    pub stderr: Seq<char>,
}

impl View for ProcessOutcome {
    type V = ProcessModel;

    open spec fn view(&self) -> ProcessModel {
        ProcessModel { success: self.success, stdout: self.stdout@, stderr: self.stderr@ }
    }
}

/// The build of the staged program and, if one was attempted, its run.
#[derive(Clone, Debug)]
pub struct ToolchainResult {
    pub build: ProcessOutcome,
    pub run: Option<ProcessOutcome>,
}

/// The mathematical value of a `ToolchainResult`.
pub struct ToolchainModel {
    pub build: ProcessModel,
    pub run: Option<ProcessModel>,
}

impl View for ToolchainResult {
    type V = ToolchainModel;

    open spec fn view(&self) -> ToolchainModel {
        ToolchainModel {
            build: self.build@,
            run: match self.run {
                Some(r) => Some(r@),
                None => None,
            },
        }
    }
}

/// A failed check, anchored at the field of the authoring document that it
/// finds wrong.
#[derive(Clone, Debug)]
pub struct Diagnostic {
    pub message: String,
    pub span: SourceSpan,
}

/// The mathematical value of a `Diagnostic`.
pub struct DiagnosticModel {
    pub message: Seq<char>,
    pub span: SourceSpan,
}

impl View for Diagnostic {
    type V = DiagnosticModel;

    open spec fn view(&self) -> DiagnosticModel {
        DiagnosticModel { message: self.message@, span: self.span }
    }
}

/// The diagnostics raised so far; they are only ever appended.
pub struct ValidationContext {
    diagnostics: Vec<Diagnostic>,
}

impl View for ValidationContext {
    type V = Seq<DiagnosticModel>;

    closed spec fn view(&self) -> Seq<DiagnosticModel> {
        self.diagnostics@.map_values(|d: Diagnostic| d@)
    }
}

impl ValidationContext {
    /// A context with no diagnostics.
    pub fn new() -> (r: ValidationContext)
        ensures
            r@ == Seq::<DiagnosticModel>::empty(),
    {
        let r = ValidationContext { diagnostics: Vec::new() };
        assert(r@ =~= Seq::<DiagnosticModel>::empty());
        r
    }

    /// Appends one diagnostic.
    pub fn error(&mut self, message: String, span: SourceSpan)
        ensures
            final(self)@ == old(self)@.push(DiagnosticModel { message: message@, span }),
    {
        let d = Diagnostic { message, span };
        self.diagnostics.push(d);
        assert(self@ =~= old(self)@.push(DiagnosticModel { message: message@, span }));
    }

    /// The diagnostics, in the order they were raised.
    pub fn diagnostics(&self) -> (r: &Vec<Diagnostic>)
        ensures
            r@.map_values(|d: Diagnostic| d@) == self@,
    {
        &self.diagnostics
    }

    /// How many diagnostics were raised.
    pub fn len(&self) -> (r: usize)
        ensures
            r == self@.len(),
    {
        self.diagnostics.len()
    }

    /// Whether any check failed.
    pub fn has_errors(&self) -> (r: bool)
        ensures
            r == (self@.len() > 0),
    {
        self.diagnostics.len() > 0
    }
}

} // verus!
