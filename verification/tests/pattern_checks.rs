use hello_cairo_plugin::boilerplate::compiler::HelloCompiler;
use hello_cairo_plugin::hello_regex;
use hello_cairo_plugin::pattern::find_fn_signature;

#[test]
fn lightweight_path_instruments_after_the_opening_brace() {
    let out = hello_regex(&"fn foo() { return 1; }".to_string());
    assert_eq!(out, "fn foo() {\n\tcore::debug::print_felt252('Hello foo!'); return 1; }");
}

#[test]
fn lightweight_path_keeps_a_return_type_signature_intact() {
    let out = hello_regex(&"fn add(a: felt252, b: felt252) -> felt252 { a + b }".to_string());
    assert_eq!(
        out,
        "fn add(a: felt252, b: felt252) -> felt252 {\n\tcore::debug::print_felt252('Hello add!'); a + b }",
    );
}

#[test]
fn lightweight_path_passes_unmatched_input_through() {
    let source = "struct Foo { x: felt252 }".to_string();
    assert_eq!(hello_regex(&source), source);
}

#[test]
fn signature_pattern_captures_the_function_name() {
    let m = find_fn_signature(&"fn foo() { return 1; }".to_string()).expect("a match");
    assert_eq!(m.0, "fn foo() {");
    assert_eq!(m.1, "foo");
}

#[test]
fn signature_pattern_allows_leading_whitespace() {
    let m = find_fn_signature(&"  fn bar(x: u8) { x }".to_string()).expect("a match");
    assert_eq!(m.0, "  fn bar(x: u8) {");
    assert_eq!(m.1, "bar");
}

#[test]
fn compiler_serves_the_hello_target_kind() {
    assert_eq!(HelloCompiler.target_kind(), "hello");
}
