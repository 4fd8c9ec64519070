use vstd::prelude::*;
use vstd::string::StringExecFns;

use crate::diagnostics::Diagnostic;
use crate::syntax::{Attribute, AttributeView, FunctionNode};

verus! {

/// The marker attribute this engine recognizes.
pub open spec fn marker() -> Seq<char> {
    "hello"@
}

/// The marker attribute name as an executable string.
pub fn marker_name() -> (r: String)
    ensures
        r@ == marker(),
{
    String::from_str("hello")
}

/// The first index whose attribute name equals the marker, in list order.
pub open spec fn spec_locate(attrs: Seq<AttributeView>, marker_name: Seq<char>) -> Option<int>
    decreases attrs.len(),
{
    if attrs.len() == 0 {
        None
    } else if attrs[0].name == marker_name {
        Some(0int)
    } else {
        match spec_locate(attrs.drop_first(), marker_name) {
            Some(i) => Some(i + 1),
            None => None,
        }
    }
}

proof fn lemma_locate_some_witness(attrs: Seq<AttributeView>, marker_name: Seq<char>, i: int)
    requires
        0 <= i < attrs.len(),
        attrs[i].name == marker_name,
        forall|j: int| 0 <= j < i ==> attrs[j].name != marker_name,
    ensures
        spec_locate(attrs, marker_name) == Some(i),
    decreases i,
{
    if i > 0 {
        lemma_locate_some_witness(attrs.drop_first(), marker_name, i - 1);
    }
}

proof fn lemma_locate_none_witness(attrs: Seq<AttributeView>, marker_name: Seq<char>)
    requires
        forall|j: int| 0 <= j < attrs.len() ==> attrs[j].name != marker_name,
    ensures
        spec_locate(attrs, marker_name) is None,
    decreases attrs.len(),
{
    if attrs.len() > 0 {
        lemma_locate_none_witness(attrs.drop_first(), marker_name);
    }
}

/// Where the marker points: if `spec_locate` finds an index, that index holds
/// the marker and no earlier one does; if it finds none, no index does.
pub proof fn lemma_locate_characterization(attrs: Seq<AttributeView>, marker_name: Seq<char>)
    ensures
        spec_locate(attrs, marker_name) matches Some(i) ==> 0 <= i < attrs.len()
            && attrs[i].name == marker_name && (forall|j: int|
            0 <= j < i ==> attrs[j].name != marker_name),
        spec_locate(attrs, marker_name) is None ==> forall|j: int|
            0 <= j < attrs.len() ==> attrs[j].name != marker_name,
    decreases attrs.len(),
{
    if attrs.len() > 0 && attrs[0].name != marker_name {
        let rest = attrs.drop_first();
        lemma_locate_characterization(rest, marker_name);
        assert(forall|j: int| 1 <= j < attrs.len() ==> attrs[j] == rest[j - 1]);
        if spec_locate(rest, marker_name) is Some {
            let i = spec_locate(rest, marker_name)->Some_0;
            assert(spec_locate(attrs, marker_name) == Some(i + 1));
            assert(forall|j: int| 1 <= j < i + 1 ==> attrs[j] == rest[j - 1]
                && rest[j - 1].name != marker_name);
        } else {
            assert(forall|j: int| 1 <= j < attrs.len() ==> attrs[j] == rest[j - 1]
                && rest[j - 1].name != marker_name);
        }
    }
}

/// Scans a function's attribute list for an exact, trivia-free text match
/// against the marker name, returning the first matching index in list order.
pub fn locate(attributes: &Vec<Attribute>, marker_name: &String) -> (r: Option<usize>)
    ensures
        r matches Some(i) ==> spec_locate(crate::syntax::attr_views(attributes@), marker_name@)
            == Some(i as int),
        r is None ==> spec_locate(crate::syntax::attr_views(attributes@), marker_name@) is None,
{
    let ghost views = crate::syntax::attr_views(attributes@);
    let mut k: usize = 0;
    while k < attributes.len()
        invariant
            k <= attributes@.len(),
            views == crate::syntax::attr_views(attributes@),
            views.len() == attributes@.len(),
            forall|j: int| 0 <= j < k ==> views[j].name != marker_name@,
        decreases attributes@.len() - k,
    {
        if attributes[k].name == *marker_name {
            proof {
                assert(views[k as int].name == marker_name@);
                lemma_locate_some_witness(views, marker_name@, k as int);
            }
            return Some(k);
        }
        k += 1;
    }
    proof {
        lemma_locate_none_witness(views, marker_name@);
    }
    None
}

/// The statement block that the Tree Rewriter synthesizes: the fixed
/// instrumentation template with the function name and the original
/// statement-block text spliced into its two slots.
pub open spec fn instrumented_body(name: Seq<char>, body: Seq<char>) -> Seq<char> {
    "\n    debug::print_felt252('Hello, "@ + name + "!');\n    "@ + body + "\n    "@
}

/// Builds the instrumented statement block by splicing the name and the
/// verbatim original body into the fixed template.
pub fn build_instrumented_body(name: &String, body: &String) -> (r: String)
    ensures
        r@ == instrumented_body(name@, body@),
{
    let mut out = String::new();
    out.append("\n    debug::print_felt252('Hello, ");
    out.append(name.as_str());
    out.append("!');\n    ");
    out.append(body.as_str());
    out.append("\n    ");
    proof {
        assert(out@ =~= instrumented_body(name@, body@));
    }
    out
}

/// The outcome of one rewrite: a fresh function node when the marker was
/// found and stripped, or the untouched original node otherwise.
pub enum MaybeRewritten {
    Rewritten(FunctionNode),
    Unchanged(FunctionNode),
}

/// Rewrites one function node: strips the first marker attribute and replaces
/// the body with the instrumented statement block, or returns the node
/// unchanged when no attribute matches the marker. Locating the marker never
/// itself produces diagnostics, so the returned list is always empty.
pub fn insert_hello(function: FunctionNode) -> (r: (MaybeRewritten, Vec<Diagnostic>))
    ensures
        r.1@.len() == 0,
        spec_locate(function@.attributes, marker()) is None ==> (r.0 matches
            MaybeRewritten::Unchanged(g) && g == function),
        spec_locate(function@.attributes, marker()) matches Some(i) ==> (r.0 matches
            MaybeRewritten::Rewritten(g) && g@.attributes == function@.attributes.remove(i)
            && g@.declaration == function@.declaration && g@.name == function@.name
            && g@.body == instrumented_body(function@.name, function@.body)),
{
    let diagnostics: Vec<Diagnostic> = Vec::new();
    let m = marker_name();
    match locate(&function.attributes, &m) {
        None => (MaybeRewritten::Unchanged(function), diagnostics),
        Some(index) => {
            let ghost orig = function@;
            let ghost orig_attrs = function.attributes@;
            proof {
                lemma_locate_characterization(orig.attributes, marker());
            }
            let new_body = build_instrumented_body(&function.name, &function.body);
            let FunctionNode { attributes: mut attributes, declaration, name, body: _ } = function;
            attributes.remove(index);
            let g = FunctionNode { attributes, declaration, name, body: new_body };
            proof {
                lemma_attr_views_remove(orig_attrs, index as int);
                assert(g@.attributes =~= orig.attributes.remove(index as int));
            }
            (MaybeRewritten::Rewritten(g), diagnostics)
        },
    }
}

/// Attribute removal law: stripping the attribute at index `i` among `n`
/// attributes leaves `n - 1` attributes and preserves the relative order of
/// all the others.
pub proof fn lemma_attribute_removal(attrs: Seq<AttributeView>, i: int)
    requires
        0 <= i < attrs.len(),
    ensures
        attrs.remove(i).len() == attrs.len() - 1,
        forall|j: int| 0 <= j < i ==> attrs.remove(i)[j] == attrs[j],
        forall|j: int| i <= j < attrs.len() - 1 ==> attrs.remove(i)[j] == attrs[j + 1],
{
}

/// Body preservation law: the instrumented statement block contains the
/// verbatim original body text as a contiguous substring.
pub proof fn lemma_body_preservation(name: Seq<char>, body: Seq<char>)
    ensures
        crate::syntax::contains_substring(instrumented_body(name, body), body),
{
    let pre = "\n    debug::print_felt252('Hello, "@ + name + "!');\n    "@;
    let k = pre.len() as int;
    assert(instrumented_body(name, body).subrange(k, k + body.len() as int) =~= body);
}

/// Name fidelity law: the instrumentation statement embeds exactly the
/// declared function name, right after the fixed call prefix.
pub proof fn lemma_name_fidelity(name: Seq<char>, body: Seq<char>)
    ensures
        instrumented_body(name, body).subrange(
            "\n    debug::print_felt252('Hello, "@.len() as int,
            "\n    debug::print_felt252('Hello, "@.len() + name.len() as int,
        ) == name,
{
    let lead = "\n    debug::print_felt252('Hello, "@;
    assert(instrumented_body(name, body).subrange(
        lead.len() as int,
        lead.len() + name.len() as int,
    ) =~= name);
}

/// Removing one element commutes with taking views, element by element.
proof fn lemma_attr_views_remove(attrs: Seq<Attribute>, i: int)
    requires
        0 <= i < attrs.len(),
    ensures
        crate::syntax::attr_views(attrs.remove(i)) =~= crate::syntax::attr_views(attrs).remove(i),
{
}

} // verus!
