use vstd::prelude::*;
use libc::{c_int, c_ulonglong};

use crate::error::Error;

verus! {

/// The signed message that a signing call yields: the primitive's status,
/// the buffer it wrote and the length it reported decide it. It is the first
/// `smlen` bytes of the buffer when the call succeeded and reported exactly
/// `m_len + 64` bytes that the buffer holds; anything else is a failure.
pub open spec fn signing_outcome(m_len: nat, status: int, sm: Seq<u8>, smlen: nat) -> Result<
    Seq<u8>,
    Error,
> {
    if status == 0 && smlen == m_len + 64 && smlen <= sm.len() {
        Ok(sm.subrange(0, smlen as int))
    } else {
        Err(Error::Signing)
    }
}

/// The length of the buffer that the signing primitive writes for a message
/// of `m_len` bytes: `m_len + 64`, or `Error::Signing` where that does not
/// fit in a `usize`.
pub fn signed_buffer_len(m_len: usize) -> (r: Result<usize, Error>)
    ensures
        r is Ok <==> m_len + 64 <= usize::MAX,
        r is Ok ==> r->Ok_0 == m_len + 64,
        r is Err ==> r->Err_0 == Error::Signing,
{
    match m_len.checked_add(64) {
        Some(n) => Ok(n),
        None => Err(Error::Signing),
    }
}

/// Turns the raw result of a signing call on a message of `m_len` bytes into
/// the signed message handed to the caller. A nonzero `status`, a reported
/// length other than `m_len + 64`, or one beyond the buffer is a failure:
/// no truncated or empty result is ever returned as a signature.
pub fn finish_signing(m_len: usize, status: c_int, sm: Vec<u8>, smlen: c_ulonglong) -> (r: Result<
    Vec<u8>,
    Error,
>)
    ensures
        r matches Ok(v) ==> signing_outcome(m_len as nat, status as int, sm@, smlen as nat) == Ok::<Seq<u8>, Error>(v@),
        r matches Err(e) ==> signing_outcome(m_len as nat, status as int, sm@, smlen as nat) == Err::<Seq<u8>, Error>(e),
        r is Ok ==> r->Ok_0@.len() == m_len + 64,
{
    if status != 0 {
        return Err(Error::Signing);
    }
    let m_len64 = m_len as u64;
    if smlen < 64 || smlen - 64 != m_len64 || smlen > sm.len() as u64 {
        return Err(Error::Signing);
    }
    let mut sm = sm;
    sm.truncate(smlen as usize);
    Ok(sm)
}

} // verus!
