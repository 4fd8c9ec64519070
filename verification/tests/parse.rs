use hello_cairo_plugin::diagnostics::ParserSeverity;
use hello_cairo_plugin::parser::{parse_diagnostics, parse_function};
use hello_cairo_plugin::{RewriteError, hello, hello_regex};

const WELL_FORMED: &str = "fn add(a: felt252, b: felt252) -> felt252 { a + b }";

#[test]
fn parse_function_reads_name_declaration_and_body() {
    let f = parse_function(&WELL_FORMED.to_string()).expect("one free function");
    assert_eq!(f.name, "add");
    assert!(f.declaration.contains("fn add"));
    assert!(f.declaration.contains("felt252"));
    assert!(f.body.contains("a + b"));
    assert!(f.attributes.is_empty());
}

#[test]
fn parse_function_reads_the_attribute_list() {
    let source = "#[hello]\n#[inline(always)]\nfn add(a: felt252, b: felt252) -> felt252 { a + b }";
    let f = parse_function(&source.to_string()).expect("one free function");
    assert_eq!(f.attributes.len(), 2);
    assert_eq!(f.attributes[0].name, "hello");
    assert!(f.attributes[0].text.contains("#[hello]"));
    assert_eq!(f.attributes[1].name, "inline");
    assert!(f.attributes[1].text.contains("#[inline(always)]"));
}

#[test]
fn parse_function_rejects_two_functions() {
    assert!(parse_function(&"fn a() -> felt252 { 1 } fn b() -> felt252 { 2 }".to_string())
        .is_none());
}

#[test]
fn parse_function_rejects_non_function_items() {
    assert!(parse_function(&"struct Foo { x: felt252 }".to_string()).is_none());
}

#[test]
fn hello_instruments_one_function() {
    let result = hello(&WELL_FORMED.to_string()).expect("one free function");
    assert!(result.token_stream.contains("core::debug::print_felt252('Hello from ast, add!');"));
    assert!(result.token_stream.contains("a + b"));
    assert!(result.diagnostics.is_empty());
}

#[test]
fn hello_fails_on_unexpected_shape() {
    let two = "fn a() -> felt252 { 1 } fn b() -> felt252 { 2 }".to_string();
    assert!(matches!(hello(&two), Err(RewriteError::UnexpectedShape)));
    let other = "struct Foo { x: felt252 }".to_string();
    assert!(matches!(hello(&other), Err(RewriteError::UnexpectedShape)));
}

#[test]
fn malformed_input_yields_parser_diagnostics() {
    let diagnostics = parse_diagnostics(&"fn broken( { ".to_string());
    assert!(!diagnostics.is_empty());
    assert!(diagnostics.iter().any(|d| matches!(d.severity, ParserSeverity::Error)));
}

#[test]
fn well_formed_input_yields_no_diagnostics() {
    assert!(parse_diagnostics(&WELL_FORMED.to_string()).is_empty());
}

#[test]
fn both_paths_insert_exactly_one_instrumentation_statement() {
    let structural = hello(&WELL_FORMED.to_string()).expect("one free function").token_stream;
    let reparsed = parse_function(&structural).expect("the artifact parses again");
    assert_eq!(reparsed.body.matches("print_felt252").count(), 1);
    assert!(reparsed.body.contains("a + b"));

    let lightweight = hello_regex(&WELL_FORMED.to_string());
    let reparsed = parse_function(&lightweight).expect("the artifact parses again");
    assert_eq!(reparsed.body.matches("print_felt252").count(), 1);
    assert!(reparsed.body.contains("a + b"));
}
