use vstd::prelude::*;
use vstd::string::{StrSliceExecFns, StringExecFns};

pub mod boilerplate;
pub mod diagnostics;
pub mod parser;
pub mod pattern;
pub mod plugin;
pub mod syntax;

use crate::diagnostics::{
    Diagnostic, ParserDiagnostic, ParserSeverity, Severity, diag_views, spec_translate,
};
use crate::parser::{parse_diagnostics, parse_diagnostics_of, parse_function, parsed_function_of};
use crate::pattern::{find_fn_signature, fn_sig_match_of};

verus! {

/// Translates one parser diagnostic into an engine diagnostic.
///
/// The match over the severity is exhaustive: a new parser severity variant
/// cannot be dropped silently, the translation stops compiling instead.
pub fn parser_to_macro_diagnostic(entry: &ParserDiagnostic) -> (d: Diagnostic)
    ensures
        d@ == spec_translate(entry@),
{
    let severity = match entry.severity {
        ParserSeverity::Error => Severity::Error,
        ParserSeverity::Warning => Severity::Warning,
    };
    Diagnostic { message: entry.message.clone(), severity }
}

/// Translates a list of parser diagnostics, one engine diagnostic for each,
/// in order, with the severity preserved.
pub fn translate_diagnostics(entries: &Vec<ParserDiagnostic>) -> (r: Vec<Diagnostic>)
    ensures
        r@.len() == entries@.len(),
        forall|i: int| 0 <= i < entries@.len() ==> r@[i]@ == spec_translate(entries@[i]@),
{
    let mut out: Vec<Diagnostic> = Vec::new();
    let mut k: usize = 0;
    while k < entries.len()
        invariant
            k <= entries@.len(),
            out@.len() == k,
            forall|i: int| 0 <= i < k ==> out@[i]@ == spec_translate(entries@[i]@),
        decreases entries@.len() - k,
    {
        out.push(parser_to_macro_diagnostic(&entries[k]));
        k += 1;
    }
    out
}

/// Error of the structural path: the top-level item set of the input is not
/// exactly one free function, so no rewrite policy applies.
#[derive(Debug, PartialEq, Eq)]
pub enum RewriteError {
    UnexpectedShape,
}

/// What the structural path returns to the host: the emitted token stream
/// text and the translated parser diagnostics.
pub struct ProcMacroResult {
    pub token_stream: String,
    pub diagnostics: Vec<Diagnostic>,
}

/// The instrumented function of the structural path: the fixed template with
/// the verbatim declaration text, the declared name and the verbatim
/// statement-block text spliced into its three slots.
pub open spec fn ast_instrumented(decl: Seq<char>, name: Seq<char>, body: Seq<char>) -> Seq<
    char,
> {
    "\n        "@ + decl + " {\n            core::debug::print_felt252('Hello from ast, "@ + name
        + "!');\n            "@ + body + "\n        }\n        "@
}

/// Builds the instrumented function text of the structural path.
fn build_ast_instrumented(decl: &String, name: &String, body: &String) -> (r: String)
    ensures
        r@ == ast_instrumented(decl@, name@, body@),
{
    let mut out = String::new();
    out.append("\n        ");
    out.append(decl.as_str());
    out.append(" {\n            core::debug::print_felt252('Hello from ast, ");
    out.append(name.as_str());
    out.append("!');\n            ");
    out.append(body.as_str());
    out.append("\n        }\n        ");
    proof {
        assert(out@ =~= ast_instrumented(decl@, name@, body@));
    }
    out
}

/// Inserts the instrumentation statement at the beginning of the function,
/// going through the full external parser: parses the token stream text,
/// translates every parser diagnostic, and splices the declaration, name and
/// verbatim body into the instrumentation template. Fails with
/// `UnexpectedShape` exactly when the input is not one free function.
pub fn hello(token_stream: &String) -> (r: Result<ProcMacroResult, RewriteError>)
    ensures
        (r is Ok) == (parsed_function_of(token_stream@) is Some),
        r matches Ok(res) ==> (parsed_function_of(token_stream@) matches Some(f)
            && res.token_stream@ == ast_instrumented(f.declaration, f.name, f.body)
            && res.diagnostics@.len() == parse_diagnostics_of(token_stream@).len() && (forall|
            i: int,
        |
            0 <= i < res.diagnostics@.len() ==> res.diagnostics@[i]@ == spec_translate(
                parse_diagnostics_of(token_stream@)[i],
            ))),
        r matches Err(e) ==> e == RewriteError::UnexpectedShape,
{
    let entries = parse_diagnostics(token_stream);
    let diagnostics = translate_diagnostics(&entries);
    proof {
        assert(forall|i: int|
            0 <= i < entries@.len() ==> diag_views(entries@)[i] == entries@[i]@);
    }
    match parse_function(token_stream) {
        Some(function) => {
            let text = build_ast_instrumented(
                &function.declaration,
                &function.name,
                &function.body,
            );
            Ok(ProcMacroResult { token_stream: text, diagnostics })
        },
        None => Err(RewriteError::UnexpectedShape),
    }
}

/// The instrumented text of the lightweight path: the matched signature
/// prefix, the instrumentation call, then the rest of the input unchanged.
pub open spec fn regex_instrumented(prefix: Seq<char>, name: Seq<char>, s: Seq<char>) -> Seq<
    char,
> {
    prefix + "\n\tcore::debug::print_felt252('Hello "@ + name + "!');"@ + s.skip(
        prefix.len() as int,
    )
}

/// Body preservation law of the structural path: the instrumented function
/// text contains the verbatim original statement-block text as a contiguous
/// substring.
pub proof fn lemma_ast_body_preservation(decl: Seq<char>, name: Seq<char>, body: Seq<char>)
    ensures
        crate::syntax::contains_substring(ast_instrumented(decl, name, body), body),
{
    let pre = "\n        "@ + decl + " {\n            core::debug::print_felt252('Hello from ast, "@
        + name + "!');\n            "@;
    let k = pre.len() as int;
    assert(ast_instrumented(decl, name, body).subrange(k, k + body.len() as int) =~= body);
}

/// Name fidelity law of the structural path: the instrumentation statement
/// embeds exactly the declared function name, right after the fixed prefix
/// that follows the declaration text.
pub proof fn lemma_ast_name_fidelity(decl: Seq<char>, name: Seq<char>, body: Seq<char>)
    ensures
        ast_instrumented(decl, name, body).subrange(
            "\n        "@.len() + decl.len() + " {\n            core::debug::print_felt252('Hello from ast, "@.len() as int,
            "\n        "@.len() + decl.len() + " {\n            core::debug::print_felt252('Hello from ast, "@.len() + name.len() as int,
        ) == name,
{
    let p: int = "\n        "@.len() + decl.len() as int
        + " {\n            core::debug::print_felt252('Hello from ast, "@.len();
    assert(ast_instrumented(decl, name, body).subrange(p, p + name.len() as int) =~= name);
}

/// Inserts the instrumentation call right after a function signature's
/// opening brace, found by one anchored text pattern and never by parsing.
/// An input the pattern cannot match passes through unchanged: this path has
/// no error channel.
pub fn hello_regex(token_stream: &String) -> (r: String)
    ensures
        fn_sig_match_of(token_stream@) is None ==> r@ == token_stream@,
        fn_sig_match_of(token_stream@) matches Some(m) ==> r@ == regex_instrumented(
            m.prefix,
            m.name,
            token_stream@,
        ),
{
    match find_fn_signature(token_stream) {
        None => token_stream.clone(),
        Some((prefix, name)) => {
            let prefix_len = prefix.as_str().unicode_len();
            let total_len = token_stream.as_str().unicode_len();
            let rest = token_stream.as_str().substring_char(prefix_len, total_len);
            let mut out = prefix;
            out.append("\n\tcore::debug::print_felt252('Hello ");
            out.append(name.as_str());
            out.append("!');");
            out.append(rest);
            proof {
                let m = fn_sig_match_of(token_stream@)->Some_0;
                assert(rest@ =~= token_stream@.skip(m.prefix.len() as int));
                assert(out@ =~= regex_instrumented(m.prefix, m.name, token_stream@));
            }
            out
        },
    }
}

} // verus!

