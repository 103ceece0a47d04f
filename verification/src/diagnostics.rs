//! The diagnostics that a lint run reports to the user.

use vstd::prelude::*;

verus! {

/// How grave a diagnostic is.
pub enum DiagnosticKind {
    Error,
    Warning,
    Note,
}

/// One diagnostic.
pub struct Diagnostic {
    pub kind: DiagnosticKind,
}

/// The diagnostics of a run, in the order in which they were found.
pub struct Diagnostics(pub Vec<Diagnostic>);

impl Default for Diagnostics {
    fn default() -> (diagnostics: Diagnostics)
        ensures
            diagnostics.0@.len() == 0,
    {
        Diagnostics(Vec::new())
    }
}

} // verus!
