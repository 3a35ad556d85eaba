use vstd::prelude::*;
use libc::c_int;

use crate::error::Error;
use crate::keys::{all_zero, PublicKey, SecretKey};

verus! {

/// Whether the raw result of a key-generation call is a usable keypair: the
/// call succeeded and the secret key is not all zeros (a buffer that the
/// primitive never wrote).
pub open spec fn keypair_accepted(status: int, sk: Seq<u8>) -> bool {
    status == 0 && !all_zero(sk)
}

/// Turns the raw result of a key-generation call into the keypair handed to
/// the caller, or `Error::Entropy` where the call reported failure or left
/// degenerate key material. On failure the secret key is dropped, and so
/// zeroed, before this returns.
pub fn finish_keypair(status: c_int, pk: [u8; 32], sk: SecretKey) -> (r: Result<
    (PublicKey, SecretKey),
    Error,
>)
    ensures
        r is Ok <==> keypair_accepted(status as int, sk@),
        r matches Ok((p, s)) ==> p@ == pk@ && s@ == sk@,
        r is Err ==> r->Err_0 == Error::Entropy,
{
    if status != 0 || sk.is_zeroed() {
        return Err(Error::Entropy);
    }
    Ok((PublicKey::from_bytes(pk), sk))
}

} // verus!
