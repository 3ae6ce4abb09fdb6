//! Error taxonomy of the verification core.

use vstd::prelude::*;

verus! {

/// Outcome taxonomy for every verification operation.
///
/// `DecodeError` marks malformed byte input that could not be parsed into a
/// group element or proof record; it is always fatal to the current operation
/// and is propagated immediately. `VerificationError` marks a well-formed but
/// cryptographically invalid proof, signature or relationship.
#[derive(Clone, Copy, Debug, PartialEq, Eq, Structural)]
pub enum AbvError {
    DecodeError,
    VerificationError,
}

} // verus!
