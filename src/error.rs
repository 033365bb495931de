use vstd::prelude::*;

verus! {

/// The ways in which signing a container can fail.
#[derive(Debug, Clone, Copy, PartialEq, Eq, Structural)]
pub enum SignError {
    /// The buffer is too short for a header, or the validator reported diagnostics.
    InvalidData,
    /// The validator could not be run, or it left the result without a digest.
    Other,
}

} // verus!
