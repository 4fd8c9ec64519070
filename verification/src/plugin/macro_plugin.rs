use vstd::prelude::*;
use vstd::string::StringExecFns;

use crate::diagnostics::Diagnostic;
use crate::plugin::insert_hello::{
    MaybeRewritten, insert_hello, instrumented_body, locate, marker, marker_name, spec_locate,
};
use crate::syntax::{AttributeView, FunctionNode, FunctionNodeView};

verus! {

/// The plugin that rewrites functions carrying the marker attribute.
#[derive(Debug, Default)]
pub struct HelloPlugin;

/// Auxiliary data attached to a generated file: the names of the functions
/// this expansion processed. Equality is structural, over the name list.
#[derive(Debug, PartialEq, Eq)]
pub struct AuxData {
    /// A list of elements that were processed by the plugin.
    pub elements: Vec<String>,
}

/// Mathematical model of `AuxData`.
#[verifier::ext_equal]
pub struct AuxDataView {
    pub elements: Seq<Seq<char>>,
}

impl View for AuxData {
    type V = AuxDataView;

    open spec fn view(&self) -> AuxDataView {
        AuxDataView { elements: self.elements@.map_values(|s: String| s@) }
    }
}

impl AuxData {
    /// Structural equality over the carried name lists: true exactly when the
    /// two lists hold the same names in the same order.
    pub fn eq(&self, other: &AuxData) -> (r: bool)
        ensures
            r == (self@ == other@),
    {
        if self.elements.len() != other.elements.len() {
            proof {
                assert(self@.elements.len() != other@.elements.len());
            }
            return false;
        }
        let mut k: usize = 0;
        while k < self.elements.len()
            invariant
                self.elements@.len() == other.elements@.len(),
                k <= self.elements@.len(),
                forall|j: int| 0 <= j < k ==> self@.elements[j] == other@.elements[j],
            decreases self.elements@.len() - k,
        {
            if !(self.elements[k] == other.elements[k]) {
                proof {
                    assert(self@.elements[k as int] != other@.elements[k as int]);
                }
                return false;
            }
            k += 1;
        }
        proof {
            assert(self@.elements =~~= other@.elements);
        }
        true
    }
}

/// One generated artifact: a name (the rewritten function's identifier), the
/// rewritten source text, and the auxiliary name list.
pub struct PluginGeneratedFile {
    pub name: String,
    pub content: String,
    pub aux_data: Option<AuxData>,
}

/// What one expansion hands back to the host: an optional artifact, the
/// diagnostics to render, and whether the original item must be removed.
pub struct PluginResult {
    pub code: Option<PluginGeneratedFile>,
    pub diagnostics: Vec<Diagnostic>,
    pub remove_original_item: bool,
}

impl Default for PluginResult {
    /// The no-op result: no artifact, no diagnostics, keep the original item.
    fn default() -> (r: Self)
        ensures
            r.code is None,
            r.diagnostics@.len() == 0,
            !r.remove_original_item,
    {
        PluginResult { code: None, diagnostics: Vec::new(), remove_original_item: false }
    }
}

/// A top-level item as the plugin sees it: a free function with a body, or
/// any other item kind, which the plugin leaves untouched.
pub enum Item {
    FreeFunction(FunctionNode),
    Other,
}

/// The serialized text of an attribute list: the concatenation of every
/// attribute's verbatim text, in list order.
pub open spec fn attrs_text(attrs: Seq<AttributeView>) -> Seq<char>
    decreases attrs.len(),
{
    if attrs.len() == 0 {
        Seq::empty()
    } else {
        attrs[0].text + attrs_text(attrs.drop_first())
    }
}

proof fn lemma_attrs_text_snoc(attrs: Seq<AttributeView>, a: AttributeView)
    ensures
        attrs_text(attrs.push(a)) == attrs_text(attrs) + a.text,
    decreases attrs.len(),
{
    if attrs.len() == 0 {
        assert(attrs.push(a).drop_first() =~= Seq::<AttributeView>::empty());
        assert(attrs_text(Seq::<AttributeView>::empty()) == Seq::<char>::empty());
        assert(attrs_text(attrs.push(a)) == attrs.push(a)[0].text + attrs_text(
            attrs.push(a).drop_first(),
        ));
        assert(attrs_text(attrs.push(a)) =~= attrs_text(attrs) + a.text);
    } else {
        let rest = attrs.drop_first();
        assert(attrs.push(a).drop_first() =~= rest.push(a));
        lemma_attrs_text_snoc(rest, a);
        assert(attrs_text(attrs.push(a)) == attrs.push(a)[0].text + attrs_text(rest.push(a)));
        assert(attrs.push(a)[0] == attrs[0]);
        assert(attrs_text(attrs.push(a)) =~= attrs_text(attrs) + a.text);
    }
}

/// The serialized text of a whole function node: the fixed function template
/// with the attribute list, the declaration and the statement block spliced
/// into its three slots.
pub open spec fn function_text(f: FunctionNodeView) -> Seq<char> {
    "\n        "@ + attrs_text(f.attributes) + "\n        "@ + f.declaration + " {\n            "@
        + f.body + "\n        }\n        "@
}

/// The full text of the rewrite of `f` with the marker at index `i`: the
/// function template around the stripped attribute list, the unchanged
/// declaration, and the instrumented statement block.
pub open spec fn rewritten_function_text(f: FunctionNodeView, i: int) -> Seq<char> {
    function_text(
        FunctionNodeView {
            attributes: f.attributes.remove(i),
            declaration: f.declaration,
            name: f.name,
            body: instrumented_body(f.name, f.body),
        },
    )
}

/// Serializes a function node back into source text, splicing its parts into
/// the fixed function template.
pub fn emit_function(f: &FunctionNode) -> (r: String)
    ensures
        r@ == function_text(f@),
{
    let ghost views = f@.attributes;
    let mut out = String::new();
    out.append("\n        ");
    let mut k: usize = 0;
    while k < f.attributes.len()
        invariant
            k <= f.attributes@.len(),
            views == f@.attributes,
            views.len() == f.attributes@.len(),
            out@ == "\n        "@ + attrs_text(views.take(k as int)),
        decreases f.attributes@.len() - k,
    {
        out.append(f.attributes[k].text.as_str());
        proof {
            assert(views.take(k + 1int) =~= views.take(k as int).push(views[k as int]));
            lemma_attrs_text_snoc(views.take(k as int), views[k as int]);
        }
        k += 1;
    }
    proof {
        assert(views.take(views.len() as int) =~= views);
    }
    out.append("\n        ");
    out.append(f.declaration.as_str());
    out.append(" {\n            ");
    out.append(f.body.as_str());
    out.append("\n        }\n        ");
    proof {
        assert(out@ =~= function_text(f@));
    }
    out
}

/// Emits the result of one rewrite: for a rewritten node, a generated file
/// named after the function, carrying the serialized text and the auxiliary
/// name list, with the original item removed; for an unchanged node, no
/// artifact and the original item kept.
fn _handle_function(func: FunctionNode) -> (r: PluginResult)
    ensures
        spec_locate(func@.attributes, marker()) matches Some(i) ==> (r.code matches Some(gf)
            && gf.name@ == func@.name && gf.content@ == rewritten_function_text(func@, i)
            && (gf.aux_data matches Some(a) && a@.elements == seq![func@.name])
            && r.remove_original_item),
        spec_locate(func@.attributes, marker()) is None ==> r.code is None
            && !r.remove_original_item,
        r.diagnostics@.len() == 0,
{
    let func_name = func.name.clone();
    let ghost orig = func@;
    let (maybe_rewritten, implicit_diagnostics) = insert_hello(func);
    match maybe_rewritten {
        MaybeRewritten::Rewritten(rewritten_func) => {
            let content = emit_function(&rewritten_func);
            proof {
                if spec_locate(orig.attributes, marker()) is Some {
                    let i = spec_locate(orig.attributes, marker())->Some_0;
                    assert(rewritten_func@ =~= (FunctionNodeView {
                        attributes: orig.attributes.remove(i),
                        declaration: orig.declaration,
                        name: orig.name,
                        body: instrumented_body(orig.name, orig.body),
                    }));
                }
            }
            let mut elements: Vec<String> = Vec::new();
            elements.push(func_name.clone());
            let aux = AuxData { elements };
            proof {
                assert(aux@.elements =~~= seq![orig.name]);
            }
            PluginResult {
                code: Some(
                    PluginGeneratedFile { name: func_name, content, aux_data: Some(aux) },
                ),
                diagnostics: implicit_diagnostics,
                remove_original_item: true,
            }
        },
        MaybeRewritten::Unchanged(_) => PluginResult {
            code: None,
            diagnostics: implicit_diagnostics,
            remove_original_item: false,
        },
    }
}

impl HelloPlugin {
    /// Routes one top-level item: a free function carrying the marker
    /// attribute is rewritten; everything else is left untouched with the
    /// no-op result.
    pub fn generate_code(&self, item_ast: Item) -> (r: PluginResult)
        ensures
            match item_ast {
                Item::FreeFunction(f) => {
                    &&& spec_locate(f@.attributes, marker()) matches Some(i) ==> (r.code
                        matches Some(gf) && gf.name@ == f@.name && gf.content@
                        == rewritten_function_text(f@, i) && (gf.aux_data matches Some(a)
                        && a@.elements == seq![f@.name]) && r.remove_original_item)
                    &&& spec_locate(f@.attributes, marker()) is None ==> r.code is None
                        && !r.remove_original_item
                },
                Item::Other => r.code is None && !r.remove_original_item,
            },
            r.diagnostics@.len() == 0,
    {
        match item_ast {
            Item::FreeFunction(function) => {
                let m = marker_name();
                match locate(&function.attributes, &m) {
                    Some(_) => _handle_function(function),
                    None => PluginResult::default(),
                }
            },
            Item::Other => PluginResult::default(),
        }
    }

    /// The single attribute name this engine declares to its host.
    pub fn declared_attributes(&self) -> (r: Vec<String>)
        ensures
            r@.len() == 1,
            r@[0]@ == marker(),
    {
        let mut names: Vec<String> = Vec::new();
        names.push(marker_name());
        names
    }
}

} // verus!
