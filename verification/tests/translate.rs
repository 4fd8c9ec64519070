use hello_cairo_plugin::diagnostics::{ParserDiagnostic, ParserSeverity, Severity};
use hello_cairo_plugin::{parser_to_macro_diagnostic, translate_diagnostics};

#[test]
fn warning_translates_to_warning_with_the_message_kept() {
    let d = parser_to_macro_diagnostic(
        &ParserDiagnostic { severity: ParserSeverity::Warning, message: "unused import".to_string() },
    );
    assert_eq!(d.severity, Severity::Warning);
    assert_eq!(d.message, "unused import");
}

#[test]
fn error_translates_to_error_with_the_message_kept() {
    let d = parser_to_macro_diagnostic(
        &ParserDiagnostic { severity: ParserSeverity::Error, message: "missing token".to_string() },
    );
    assert_eq!(d.severity, Severity::Error);
    assert_eq!(d.message, "missing token");
}

#[test]
fn every_parser_diagnostic_yields_exactly_one_engine_diagnostic() {
    let entries = vec![
        ParserDiagnostic { severity: ParserSeverity::Error, message: "first".to_string() },
        ParserDiagnostic { severity: ParserSeverity::Warning, message: "second".to_string() },
        ParserDiagnostic { severity: ParserSeverity::Error, message: "third".to_string() },
    ];
    let out = translate_diagnostics(&entries);
    assert_eq!(out.len(), 3);
    assert_eq!(out[0].severity, Severity::Error);
    assert_eq!(out[0].message, "first");
    assert_eq!(out[1].severity, Severity::Warning);
    assert_eq!(out[1].message, "second");
    assert_eq!(out[2].severity, Severity::Error);
    assert_eq!(out[2].message, "third");
}
