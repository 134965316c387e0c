//! The one error of the lowering.

use vstd::prelude::*;

verus! {

/// Why a hint could not be lowered.
#[derive(Clone, Copy, Debug, PartialEq, Eq, Structural)]
pub enum LoweringError {
    /// A type constant is read from something that is no named type. An
    /// earlier pass left the tree inconsistent; the declaration cannot be
    /// lowered.
    MalformedTypeConstant,
}

impl LoweringError {
    /// The text that reports the error.
    pub fn message(&self) -> (r: &'static str)
        ensures
            r@ == "ast_to_nast error. Should be Haccess(Happly())"@,
    {
        "ast_to_nast error. Should be Haccess(Happly())"
    }
}

} // verus!
