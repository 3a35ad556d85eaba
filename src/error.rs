use vstd::prelude::*;

verus! {

/// Why an operation could not be carried out.
#[derive(Debug, Clone, Copy, PartialEq, Eq, Structural)]
pub enum Error {
    /// The process-wide initialization of the primitive library did not succeed.
    Initialization,
    /// Key generation reported failure or produced degenerate key material.
    Entropy,
    /// The signing primitive reported failure or returned a malformed result.
    Signing,
}

/// The single outcome of a rejected signed message: malformed input, wrong
/// key and tampered signature are deliberately not told apart.
#[derive(Debug, Clone, Copy, PartialEq, Eq, Structural)]
pub struct VerificationFailed;

} // verus!
