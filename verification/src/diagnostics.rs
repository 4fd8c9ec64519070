use vstd::prelude::*;

verus! {

/// Severity of a diagnostic reported by the macro engine to its host.
#[derive(Clone, Copy, Debug, PartialEq, Eq)]
pub enum Severity {
    Warning,
    Error,
}

/// Severity of a diagnostic as the external parser reports it, reduced to the
/// two variants the engine distinguishes.
#[derive(Clone, Copy, Debug, PartialEq, Eq)]
pub enum ParserSeverity {
    Warning,
    Error,
}

/// A diagnostic of the macro engine: a severity and a human-readable message.
#[derive(Debug)]
pub struct Diagnostic {
    pub severity: Severity,
    pub message: String,
}

/// A parser diagnostic, reduced to the parts the engine reads:
/// a severity and a formatted message.
#[derive(Debug)]
pub struct ParserDiagnostic {
    pub severity: ParserSeverity,
    pub message: String,
}

/// Mathematical model of a `Diagnostic`.
pub struct DiagnosticView {
    pub severity: Severity,
    pub message: Seq<char>,
}

/// Mathematical model of a `ParserDiagnostic`.
pub struct ParserDiagnosticView {
    pub severity: ParserSeverity,
    pub message: Seq<char>,
}

impl View for Diagnostic {
    type V = DiagnosticView;

    open spec fn view(&self) -> DiagnosticView {
        DiagnosticView { severity: self.severity, message: self.message@ }
    }
}

impl View for ParserDiagnostic {
    type V = ParserDiagnosticView;

    open spec fn view(&self) -> ParserDiagnosticView {
        ParserDiagnosticView { severity: self.severity, message: self.message@ }
    }
}

/// The severity translation is exhaustive: each parser severity maps to the
/// engine severity of the same name, and to nothing else.
pub open spec fn spec_translate_severity(s: ParserSeverity) -> Severity {
    match s {
        ParserSeverity::Warning => Severity::Warning,
        ParserSeverity::Error => Severity::Error,
    }
}

/// What translating one parser diagnostic yields: the translated severity and
/// the message unchanged.
pub open spec fn spec_translate(d: ParserDiagnosticView) -> DiagnosticView {
    DiagnosticView { severity: spec_translate_severity(d.severity), message: d.message }
}

/// The views of a list of parser diagnostics, in order.
pub open spec fn diag_views(ds: Seq<ParserDiagnostic>) -> Seq<ParserDiagnosticView> {
    ds.map_values(|d: ParserDiagnostic| d@)
}

} // verus!
