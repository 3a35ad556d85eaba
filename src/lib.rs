//! Legacy edwards25519sha512batch signatures: key material with guaranteed
//! zeroization, and the checked decisions made around each call into the
//! signature primitive (key generation, signing, opening).
//!
//! The primitive itself is a C library reached through an unsafe foreign
//! interface; the code that performs those calls hands their raw outcome
//! (status code, output buffer, output length) to the functions here, which
//! decide what the caller receives.

use vstd::prelude::*;

pub mod error;
pub mod init;
pub mod keypair;
pub mod keys;
pub mod opening;
pub mod signing;

pub use error::{Error, VerificationFailed};
pub use init::Initialized;
pub use keys::{PublicKey, SecretKey};

verus! {

/// Length in bytes of a secret key.
pub const SECRETKEYBYTES: usize = 64;

/// Length in bytes of a public key.
pub const PUBLICKEYBYTES: usize = 32;

/// Number of bytes a signed message carries beyond the message itself.
pub const SIGNATUREBYTES: usize = 64;

} // verus!
