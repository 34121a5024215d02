//! Result envelopes delivered to subscribers.
//!
//! Every delivery hands the sink the classified result of one compute step
//! together with the issues and diagnostics collected while reading the
//! underlying views.

use vstd::prelude::*;

verus! {

/// How severe a collected issue is.
#[derive(Clone, Copy, Debug, PartialEq, Eq, Structural)]
pub enum IssueSeverity {
    Bug,
    Fatal,
    Error,
    Warning,
    Hint,
    Note,
    Suggestion,
    Info,
}

/// One issue raised while computing a view: severity, message, and an
/// optional source location (file plus line).
pub struct Issue {
    pub severity: IssueSeverity,
    pub message: String,
    pub file: Option<String>,
    pub line: Option<u64>,
}

/// One opaque diagnostic: a category and a message.
pub struct Diagnostic {
    pub category: String,
    pub message: String,
}

/// What one subscription cycle delivers: the classified result plus
/// everything collected while computing it.
pub struct ResultEnvelope<T> {
    pub result: T,
    pub issues: Vec<Issue>,
    pub diagnostics: Vec<Diagnostic>,
}

/// Package one compute step's outcome for delivery.
pub fn envelope<T>(result: T, issues: Vec<Issue>, diagnostics: Vec<Diagnostic>) -> (e:
    ResultEnvelope<T>)
    ensures
        e.result == result,
        e.issues == issues,
        e.diagnostics == diagnostics,
{
    ResultEnvelope { result, issues, diagnostics }
}

} // verus!
