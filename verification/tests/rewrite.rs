use hello_cairo_plugin::plugin::insert_hello::{MaybeRewritten, insert_hello, locate, marker_name};
use hello_cairo_plugin::plugin::macro_plugin::{AuxData, HelloPlugin, Item, PluginResult};
use hello_cairo_plugin::plugin::plugin::handle_function;
use hello_cairo_plugin::syntax::{Attribute, FunctionNode};

fn attr(text: &str, name: &str) -> Attribute {
    Attribute { text: text.to_string(), name: name.to_string() }
}

fn add_function(with_marker: bool) -> FunctionNode {
    let attributes = if with_marker { vec![attr("#[hello]", "hello")] } else { Vec::new() };
    FunctionNode {
        attributes,
        declaration: "fn add(a: T, b: T) -> T".to_string(),
        name: "add".to_string(),
        body: "{ a + b }".to_string(),
    }
}

#[test]
fn marker_attribute_rewrites_body_and_empties_attributes() {
    let (result, diagnostics) = insert_hello(add_function(true));
    assert!(diagnostics.is_empty());
    match result {
        MaybeRewritten::Rewritten(g) => {
            assert!(g.attributes.is_empty());
            assert_eq!(g.declaration, "fn add(a: T, b: T) -> T");
            assert_eq!(g.name, "add");
            assert_eq!(g.body, "\n    debug::print_felt252('Hello, add!');\n    { a + b }\n    ");
        },
        MaybeRewritten::Unchanged(_) => panic!("expected a rewrite"),
    }
}

#[test]
fn missing_marker_passes_function_through_unchanged() {
    let (result, diagnostics) = insert_hello(add_function(false));
    assert!(diagnostics.is_empty());
    match result {
        MaybeRewritten::Unchanged(g) => {
            assert!(g.attributes.is_empty());
            assert_eq!(g.declaration, "fn add(a: T, b: T) -> T");
            assert_eq!(g.name, "add");
            assert_eq!(g.body, "{ a + b }");
        },
        MaybeRewritten::Rewritten(_) => panic!("expected no rewrite"),
    }
}

#[test]
fn handle_function_matches_insert_hello() {
    let (result, diagnostics) = handle_function(add_function(true));
    assert!(diagnostics.is_empty());
    assert!(matches!(result, MaybeRewritten::Rewritten(_)));
    let (result, _) = handle_function(add_function(false));
    assert!(matches!(result, MaybeRewritten::Unchanged(_)));
}

#[test]
fn attribute_removal_keeps_length_and_order() {
    let mut function = add_function(false);
    function.attributes = vec![
        attr("#[inline]", "inline"),
        attr("#[hello]", "hello"),
        attr("#[derive(Drop)]", "derive"),
    ];
    let (result, _) = insert_hello(function);
    match result {
        MaybeRewritten::Rewritten(g) => {
            assert_eq!(g.attributes.len(), 2);
            assert_eq!(g.attributes[0].name, "inline");
            assert_eq!(g.attributes[1].name, "derive");
        },
        MaybeRewritten::Unchanged(_) => panic!("expected a rewrite"),
    }
}

#[test]
fn locate_returns_first_match_only() {
    let attributes = vec![
        attr("#[inline]", "inline"),
        attr("#[hello]", "hello"),
        attr("#[hello]", "hello"),
    ];
    let m = marker_name();
    assert_eq!(locate(&attributes, &m), Some(1));
    let none: Vec<Attribute> = vec![attr("#[inline]", "inline")];
    assert_eq!(locate(&none, &m), None);
}

#[test]
fn body_text_is_preserved_verbatim_in_rewrite() {
    let (result, _) = insert_hello(add_function(true));
    match result {
        MaybeRewritten::Rewritten(g) => assert!(g.body.contains("{ a + b }")),
        MaybeRewritten::Unchanged(_) => panic!("expected a rewrite"),
    }
}

#[test]
fn generate_code_emits_named_artifact_and_removes_original() {
    let plugin = HelloPlugin;
    let result = plugin.generate_code(Item::FreeFunction(add_function(true)));
    assert!(result.remove_original_item);
    assert!(result.diagnostics.is_empty());
    let file = result.code.expect("an artifact is owed");
    assert_eq!(file.name, "add");
    assert_eq!(
        file.content,
        "\n        \n        fn add(a: T, b: T) -> T {\n            \n    debug::print_felt252('Hello, add!');\n    { a + b }\n    \n        }\n        ",
    );
    let aux = file.aux_data.expect("aux data is owed");
    assert_eq!(aux.elements, vec!["add".to_string()]);
}

#[test]
fn generate_code_without_marker_is_a_no_op() {
    let plugin = HelloPlugin;
    let result = plugin.generate_code(Item::FreeFunction(add_function(false)));
    assert!(!result.remove_original_item);
    assert!(result.code.is_none());
    assert!(result.diagnostics.is_empty());
}

#[test]
fn generate_code_leaves_other_items_untouched() {
    let plugin = HelloPlugin;
    let result = plugin.generate_code(Item::Other);
    assert!(!result.remove_original_item);
    assert!(result.code.is_none());
}

#[test]
fn declared_attributes_names_the_marker() {
    let plugin = HelloPlugin;
    assert_eq!(plugin.declared_attributes(), vec!["hello".to_string()]);
}

#[test]
fn default_plugin_result_is_the_no_op() {
    let result = PluginResult::default();
    assert!(result.code.is_none());
    assert!(result.diagnostics.is_empty());
    assert!(!result.remove_original_item);
}

#[test]
fn aux_data_equality_is_structural() {
    let a = AuxData { elements: vec!["add".to_string()] };
    let b = AuxData { elements: vec!["add".to_string()] };
    let c = AuxData { elements: vec!["add".to_string(), "sub".to_string()] };
    let d = AuxData { elements: vec!["mul".to_string()] };
    assert!(a.eq(&b));
    assert!(!a.eq(&c));
    assert!(!a.eq(&d));
}

#[test]
fn instrumented_body_follows_the_fixed_template() {
    let body = hello_cairo_plugin::plugin::insert_hello::build_instrumented_body(
        &"add".to_string(),
        &"{ a + b }".to_string(),
    );
    assert_eq!(body, "\n    debug::print_felt252('Hello, add!');\n    { a + b }\n    ");
}

#[test]
fn emitted_function_concatenates_attributes_in_order() {
    let node = FunctionNode {
        attributes: vec![attr("#[inline]", "inline"), attr("#[derive(Drop)]", "derive")],
        declaration: "fn add(a: T, b: T) -> T".to_string(),
        name: "add".to_string(),
        body: "{ a + b }".to_string(),
    };
    let text = hello_cairo_plugin::plugin::macro_plugin::emit_function(&node);
    assert_eq!(
        text,
        "\n        #[inline]#[derive(Drop)]\n        fn add(a: T, b: T) -> T {\n            { a + b }\n        }\n        ",
    );
}
