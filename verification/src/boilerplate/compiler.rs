use vstd::prelude::*;
use vstd::string::StringExecFns;

verus! {

/// The compiler adapter that the host build tool registers for this engine's
/// target kind. Driving a workspace compilation and writing its artifacts to
/// disk belong to the host; the library only names the target kind.
pub struct HelloCompiler;

impl HelloCompiler {
    /// The name of the target kind this compiler serves.
    pub fn target_kind(&self) -> (r: String)
        ensures
            r@ == "hello"@,
    {
        String::from_str("hello")
    }
}

} // verus!
