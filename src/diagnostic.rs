use vstd::prelude::*;

verus! {

/// What a build-time diagnostic reports.
#[derive(Clone, Copy, Debug, PartialEq, Eq, Structural)]
pub enum DiagnosticKind {
    /// The external name is not an identifier optionally followed by `!` or `?`.
    ExternalName,
    /// The external name's second token is punctuation other than `!` or `?`.
    ExternalNameSuffix,
    /// A signature key that names no parameter of the native function.
    UnknownSignatureKey,
}

/// A build-time diagnostic, pointing at the position of the offending token;
/// `None` points at the whole declaration.
#[derive(Clone, Copy, Debug, PartialEq, Eq, Structural)]
pub struct Diagnostic {
    pub kind: DiagnosticKind,
    pub span: Option<usize>,
}

/// All diagnostics of one generation pass, reported together.
#[derive(Clone, Debug)]
pub struct Diagnostics {
    pub items: Vec<Diagnostic>,
}

impl Diagnostic {
    /// The message shown for the diagnostic.
    pub fn message(&self) -> (r: String)
        ensures
            r@ == match self.kind {
                DiagnosticKind::ExternalName =>
                    "The def_name must be an alphabetic or underscore ident and end with ! or ? symbol at the end."@,
                DiagnosticKind::ExternalNameSuffix =>
                    "The end of the def_name is ! or ? punctuations can be specified."@,
                DiagnosticKind::UnknownSignatureKey => "not found in arguments."@,
            },
    {
        match &self.kind {
            DiagnosticKind::ExternalName => String::from_str(
                "The def_name must be an alphabetic or underscore ident and end with ! or ? symbol at the end.",
            ),
            DiagnosticKind::ExternalNameSuffix => String::from_str(
                "The end of the def_name is ! or ? punctuations can be specified.",
            ),
            DiagnosticKind::UnknownSignatureKey => String::from_str("not found in arguments."),
        }
    }
}

/// Gathers diagnostics into one report; there is none when there is nothing
/// to report.
pub fn combined_errors(errors: Vec<Diagnostic>) -> (r: Option<Diagnostics>)
    ensures
        errors@.len() == 0 ==> r is None,
        errors@.len() > 0 ==> (r matches Some(d) && d.items@ == errors@),
{
    if errors.len() == 0 {
        None
    } else {
        Some(Diagnostics { items: errors })
    }
}

} // verus!
