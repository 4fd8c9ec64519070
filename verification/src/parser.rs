use vstd::prelude::*;

use cairo_lang_parser::utils::SimpleParserDatabase;
use cairo_lang_syntax::node::ast::{ModuleItem, SyntaxFile};
use cairo_lang_syntax::node::{Terminal, TypedSyntaxNode};

use crate::diagnostics::{ParserDiagnostic, ParserDiagnosticView, ParserSeverity, diag_views};
use crate::syntax::{Attribute, FunctionNode, FunctionNodeView, attr_views};

verus! {

/// What the external parser makes of one source text: the single top-level
/// free function, reduced to the parts the engine reads, or nothing when the
/// top-level item set is not exactly one free function.
pub uninterp spec fn parsed_function_of(s: Seq<char>) -> Option<FunctionNodeView>;

/// The parser diagnostics for one source text, formatted to severity and
/// message, in report order.
pub uninterp spec fn parse_diagnostics_of(s: Seq<char>) -> Seq<ParserDiagnosticView>;

/// Relies on cairo_lang_parser's SimpleParserDatabase::parse_virtual_with_diagnostics
/// and cairo_lang_diagnostics' Diagnostics::format_with_severity: parsing is a pure
/// function of the source text, and formatting yields one entry per reported
/// diagnostic, each carrying a severity (Error or Warning) and a message.
#[verifier::external_body]
pub fn parse_diagnostics(source: &String) -> (r: Vec<ParserDiagnostic>)
    ensures
        diag_views(r@) == parse_diagnostics_of(source@),
{
    let db = SimpleParserDatabase::default();
    let (_, diags) = db.parse_virtual_with_diagnostics(source.as_str());
    let entries = diags.format_with_severity(&db, &Default::default());
    entries.iter().map(
        |e| ParserDiagnostic {
            severity: match e.severity() {
                cairo_lang_diagnostics::Severity::Error => ParserSeverity::Error,
                cairo_lang_diagnostics::Severity::Warning => ParserSeverity::Warning,
            },
            message: e.message().to_string(),
        },
    ).collect()
}

/// Relies on the same parse: when the parsed file holds exactly one top-level
/// free function, yields the verbatim text of its declaration node, its
/// declared name, and the verbatim text of its statement-block node.
#[verifier::external_body]
fn parse_signature(source: &String) -> (r: Option<(String, String, String)>)
    ensures
        (r is Some) == (parsed_function_of(source@) is Some),
        r matches Some(t) ==> (parsed_function_of(source@) matches Some(f) && t.0@ == f.declaration
            && t.1@ == f.name && t.2@ == f.body),
{
    let db = SimpleParserDatabase::default();
    let (root, _) = db.parse_virtual_with_diagnostics(source.as_str());
    let items = SyntaxFile::from_syntax_node(&db, root).items(&db).elements_vec(&db);
    match items.as_slice() {
        [ModuleItem::FreeFunction(f)] => Some(
            (
                f.declaration(&db).as_syntax_node().get_text(&db).to_string(),
                f.declaration(&db).name(&db).text(&db).to_string(&db),
                f.body(&db).as_syntax_node().get_text(&db).to_string(),
            ),
        ),
        _ => None,
    }
}

/// Relies on the same parse: when the parsed file holds exactly one top-level
/// free function, yields its attribute list in order, each attribute as its
/// verbatim node text and the trivia-free text of its name path.
#[verifier::external_body]
fn parse_attributes(source: &String) -> (r: Option<Vec<Attribute>>)
    ensures
        (r is Some) == (parsed_function_of(source@) is Some),
        r matches Some(v) ==> (parsed_function_of(source@) matches Some(f) && attr_views(v@)
            == f.attributes),
{
    let db = SimpleParserDatabase::default();
    let (root, _) = db.parse_virtual_with_diagnostics(source.as_str());
    let items = SyntaxFile::from_syntax_node(&db, root).items(&db).elements_vec(&db);
    match items.as_slice() {
        [ModuleItem::FreeFunction(f)] => Some(
            f.attributes(&db).elements_vec(&db).iter().map(
                |a| Attribute {
                    text: a.as_syntax_node().get_text(&db).to_string(),
                    name: a.attr(&db).as_syntax_node().get_text_without_trivia(&db).to_string(&db),
                },
            ).collect(),
        ),
        _ => None,
    }
}

/// Parses one source text and assembles the engine's view of its single
/// top-level free function, or returns nothing when the item set has any
/// other shape.
pub fn parse_function(source: &String) -> (r: Option<FunctionNode>)
    ensures
        (r is Some) == (parsed_function_of(source@) is Some),
        r matches Some(g) ==> parsed_function_of(source@) == Some(g@),
{
    match (parse_signature(source), parse_attributes(source)) {
        (Some(t), Some(a)) => {
            let g = FunctionNode { attributes: a, declaration: t.0, name: t.1, body: t.2 };
            proof {
                assert(g@ =~= parsed_function_of(source@)->Some_0);
            }
            Some(g)
        },
        _ => None,
    }
}

} // verus!
