use vstd::prelude::*;
use crate::span::Span;

verus! {

/// How serious a diagnostic is.
#[derive(Clone, Copy, Debug, PartialEq, Eq, Structural)]
pub enum Severity {
    Error,
    Warning,
    Advice,
}

/// One reported finding: the emitting rule's name, a severity, a message, a
/// help text, one primary span, and zero or more secondary labeled spans.
#[derive(Clone, Debug)]
pub struct Diagnostic {
    pub rule: String,
    pub severity: Severity,
    pub message: String,
    pub help: String,
    pub span: Span,
    pub secondary: Vec<(String, Span)>,
}

/// Collects diagnostics for one pass over one file. Append-only: nothing
/// this type offers removes or reorders an entry, so the finalized list is
/// in emission order.
pub struct DiagnosticSink {
    entries: Vec<Diagnostic>,
}

impl DiagnosticSink {
    pub closed spec fn spec_entries(self) -> Seq<Diagnostic> {
        self.entries@
    }

    pub fn new() -> (s: DiagnosticSink)
        ensures
            s.spec_entries().len() == 0,
    {
        DiagnosticSink { entries: Vec::new() }
    }

    /// Appends one diagnostic; everything already collected stays in place.
    pub fn emit(&mut self, d: Diagnostic)
        ensures
            final(self).spec_entries() == old(self).spec_entries().push(d),
    {
        self.entries.push(d);
    }

    pub fn len(&self) -> (n: usize)
        ensures
            n == self.spec_entries().len(),
    {
        self.entries.len()
    }

    pub fn get(&self, i: usize) -> (d: &Diagnostic)
        requires
            i < self.spec_entries().len(),
        ensures
            *d == self.spec_entries()[i as int],
    {
        &self.entries[i]
    }

    /// Ends the pass: hands the collected diagnostics out, in emission
    /// order.
    pub fn finalize(self) -> (r: Vec<Diagnostic>)
        ensures
            r@ == self.spec_entries(),
    {
        self.entries
    }
}

} // verus!
