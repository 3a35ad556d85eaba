use vstd::prelude::*;
use libc::{c_int, c_ulonglong};

use crate::error::VerificationFailed;
use crate::signing::signing_outcome;

verus! {

/// Whether a byte sequence of length `sm_len` can be a signed message at all:
/// one shorter than the 64 signature bytes never can.
pub open spec fn may_be_signed(sm_len: nat) -> bool {
    sm_len >= 64
}

/// The message that an opening call yields: the primitive's status, the
/// buffer it wrote and the length it reported decide it. It is the first
/// `mlen` bytes of the buffer when the call succeeded on an input that can be
/// a signed message and reported exactly `sm_len - 64` bytes that the buffer
/// holds; anything else is the one rejection.
pub open spec fn opening_outcome(sm_len: nat, status: int, m: Seq<u8>, mlen: nat) -> Result<
    Seq<u8>,
    VerificationFailed,
> {
    if status == 0 && may_be_signed(sm_len) && mlen == sm_len - 64 && mlen <= m.len() {
        Ok(m.subrange(0, mlen as int))
    } else {
        Err(VerificationFailed)
    }
}

/// The length of the buffer that the opening primitive writes for a signed
/// message of `sm_len` bytes, or the rejection where the input is too short to
/// hold a signature, in which case the primitive is not to be called.
pub fn opened_buffer_len(sm_len: usize) -> (r: Result<usize, VerificationFailed>)
    ensures
        r is Ok <==> may_be_signed(sm_len as nat),
        r is Ok ==> r->Ok_0 == sm_len,
        sm_len < 64 ==> r is Err,
{
    if sm_len < 64 {
        Err(VerificationFailed)
    } else {
        Ok(sm_len)
    }
}

/// Turns the raw result of an opening call on a signed message of `sm_len`
/// bytes into what the caller receives: the recovered message, or the one
/// rejection where the status is nonzero, the input is too short, or the
/// reported length is not `sm_len - 64` bytes within the buffer.
pub fn finish_opening(sm_len: usize, status: c_int, m: Vec<u8>, mlen: c_ulonglong) -> (r: Result<
    Vec<u8>,
    VerificationFailed,
>)
    ensures
        r matches Ok(v) ==> opening_outcome(sm_len as nat, status as int, m@, mlen as nat)
            == Ok::<Seq<u8>, VerificationFailed>(v@),
        r is Err <==> opening_outcome(sm_len as nat, status as int, m@, mlen as nat) is Err,
        r is Ok ==> r->Ok_0@.len() == sm_len - 64,
        sm_len < 64 ==> r is Err,
{
    if status != 0 || sm_len < 64 {
        return Err(VerificationFailed);
    }
    let expected = (sm_len - 64) as u64;
    if mlen != expected || mlen > m.len() as u64 {
        return Err(VerificationFailed);
    }
    let mut m = m;
    m.truncate(mlen as usize);
    Ok(m)
}

/// A signed message that signing produced for a message of `m_len` bytes is
/// never turned away as too short, and whenever opening it succeeds, the
/// recovered message has exactly `m_len` bytes.
pub proof fn lemma_signed_message_opens_to_message_length(
    m_len: nat,
    sign_status: int,
    sm: Seq<u8>,
    smlen: nat,
    open_status: int,
    m: Seq<u8>,
    mlen: nat,
)
    requires
        signing_outcome(m_len, sign_status, sm, smlen) is Ok,
    ensures
        ({
            let signed = signing_outcome(m_len, sign_status, sm, smlen)->Ok_0;
            &&& signed.len() == m_len + 64
            &&& may_be_signed(signed.len())
            &&& opening_outcome(signed.len(), open_status, m, mlen) matches Ok(opened)
                ==> opened.len() == m_len
        }),
{
}

} // verus!
