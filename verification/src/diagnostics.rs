//! Diagnostics reported by the analyzer.
use vstd::prelude::*;
use vstd::string::*;
use crate::syntax::Span;

verus! {

#[derive(Clone, Copy, Debug, PartialEq, Eq, Structural)]
pub enum Severity {
    Error,
    Warning,
}

#[derive(Clone, Debug, PartialEq, Eq)]
pub struct Diagnostic {
    pub severity: Severity,
    pub code: String,
    pub message: String,
    pub span: Span,
}

impl Diagnostic {
    pub fn error(code: &str, message: String, span: Span) -> (r: Diagnostic)
        ensures
            r.severity == Severity::Error,
            r.code@ == code@,
            r.message@ == message@,
            r.span == span,
    {
        Diagnostic { severity: Severity::Error, code: String::from_str(code), message, span }
    }
}

/// A diagnostic as seen in contracts: severity, code, message and span.
pub open spec fn diag_view(d: Diagnostic) -> (Severity, Seq<char>, Seq<char>, Span) {
    (d.severity, d.code@, d.message@, d.span)
}

pub open spec fn diag_views(ds: Seq<Diagnostic>) -> Seq<(Severity, Seq<char>, Seq<char>, Span)> {
    ds.map_values(|d: Diagnostic| diag_view(d))
}

} // verus!
