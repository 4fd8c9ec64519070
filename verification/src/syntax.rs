use vstd::prelude::*;

verus! {

/// One attribute attached to a function, as the engine reads it from the
/// parsed tree: the full source text of the attribute node (trivia included)
/// and the trivia-free text of its name path.
pub struct Attribute {
    pub text: String,
    pub name: String,
}

/// One parsed function definition, reduced to the parts the rewriter reads:
/// the ordered attribute list, the full text of the declaration node, the
/// declared name, and the full text of the statement-block node.
///
/// The concatenation of these texts, in source order, reproduces the original
/// source of the function, so keeping each part verbatim keeps the whole.
pub struct FunctionNode {
    pub attributes: Vec<Attribute>,
    pub declaration: String,
    pub name: String,
    pub body: String,
}

/// Mathematical model of an `Attribute`.
#[verifier::ext_equal]
pub struct AttributeView {
    pub text: Seq<char>,
    pub name: Seq<char>,
}

/// Mathematical model of a `FunctionNode`.
#[verifier::ext_equal]
pub struct FunctionNodeView {
    pub attributes: Seq<AttributeView>,
    pub declaration: Seq<char>,
    pub name: Seq<char>,
    pub body: Seq<char>,
}

impl View for Attribute {
    type V = AttributeView;

    open spec fn view(&self) -> AttributeView {
        AttributeView { text: self.text@, name: self.name@ }
    }
}

/// The views of a list of attributes, in order.
pub open spec fn attr_views(attrs: Seq<Attribute>) -> Seq<AttributeView> {
    attrs.map_values(|a: Attribute| a@)
}

/// `needle` occurs in `hay` as a contiguous substring.
pub open spec fn contains_substring(hay: Seq<char>, needle: Seq<char>) -> bool {
    exists|k: int|
        0 <= k && k + needle.len() <= hay.len() && #[trigger] hay.subrange(
            k,
            k + needle.len() as int,
        ) == needle
}

impl View for FunctionNode {
    type V = FunctionNodeView;

    open spec fn view(&self) -> FunctionNodeView {
        FunctionNodeView {
            attributes: attr_views(self.attributes@),
            declaration: self.declaration@,
            name: self.name@,
            body: self.body@,
        }
    }
}

} // verus!
