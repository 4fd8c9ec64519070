use vstd::prelude::*;

use crate::diagnostics::Diagnostic;
use crate::plugin::insert_hello::{insert_hello, instrumented_body, marker, spec_locate};
use crate::syntax::FunctionNode;

pub use crate::plugin::insert_hello::MaybeRewritten;
pub use crate::plugin::macro_plugin::{AuxData, HelloPlugin};

verus! {

/// Rewrites one function node: the self-contained entry point of the plugin,
/// implementing the same contract as `insert_hello`.
pub fn handle_function(function: FunctionNode) -> (r: (MaybeRewritten, Vec<Diagnostic>))
    ensures
        r.1@.len() == 0,
        spec_locate(function@.attributes, marker()) is None ==> (r.0 matches
            MaybeRewritten::Unchanged(g) && g == function),
        spec_locate(function@.attributes, marker()) matches Some(i) ==> (r.0 matches
            MaybeRewritten::Rewritten(g) && g@.attributes == function@.attributes.remove(i)
            && g@.declaration == function@.declaration && g@.name == function@.name
            && g@.body == instrumented_body(function@.name, function@.body)),
{
    insert_hello(function)
}

} // verus!
