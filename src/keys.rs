use vstd::prelude::*;

verus! {

/// True when every byte of `s` is zero.
pub open spec fn all_zero(s: Seq<u8>) -> bool {
    forall|i: int| 0 <= i < s.len() ==> s[i] == 0
}

/// A public key for signatures: 32 bytes, immutable once created.
pub struct PublicKey {
    bytes: [u8; 32],
}

impl View for PublicKey {
    type V = Seq<u8>;

    closed spec fn view(&self) -> Seq<u8> {
        self.bytes@
    }
}

impl PublicKey {
    /// Builds a public key from its 32 bytes.
    pub fn from_bytes(bytes: [u8; 32]) -> (r: PublicKey)
        ensures
            r@ == bytes@,
    {
        PublicKey { bytes }
    }

    /// The key's bytes.
    pub fn as_bytes(&self) -> (r: &[u8; 32])
        ensures
            r@ == self@,
    {
        &self.bytes
    }
}

/// A secret key for signatures: 64 bytes, never copied implicitly.
///
/// When a `SecretKey` goes out of scope its bytes are overwritten with zeros.
pub struct SecretKey {
    bytes: [u8; 64],
}

impl View for SecretKey {
    type V = Seq<u8>;

    closed spec fn view(&self) -> Seq<u8> {
        self.bytes@
    }
}

impl SecretKey {
    /// Builds a secret key from its 64 bytes.
    pub fn from_bytes(bytes: [u8; 64]) -> (r: SecretKey)
        ensures
            r@ == bytes@,
    {
        SecretKey { bytes }
    }

    /// The key's bytes.
    pub fn as_bytes(&self) -> (r: &[u8; 64])
        ensures
            r@ == self@,
    {
        &self.bytes
    }

    /// True when every byte of the key is zero, as it is after `wipe`.
    pub fn is_zeroed(&self) -> (r: bool)
        ensures
            r == all_zero(self@),
    {
        let mut i: usize = 0;
        while i < 64
            invariant
                0 <= i <= 64,
                self@.len() == 64,
                forall|j: int| 0 <= j < i ==> self@[j] == 0,
            decreases 64 - i,
        {
            if self.bytes[i] != 0 {
                return false;
            }
            i = i + 1;
        }
        true
    }

    /// Overwrites every byte of the key with zero.
    pub fn wipe(&mut self)
        ensures
            final(self)@.len() == 64,
            all_zero(final(self)@),
    {
        wipe_bytes(&mut self.bytes);
    }
}

impl Drop for SecretKey {
    /// Zeroes every byte of the key before its storage is released, on every
    /// path by which the key goes out of scope.
    fn drop(&mut self)
        ensures
            final(self)@.len() == 64,
            all_zero(final(self)@),
        opens_invariants none
        no_unwind
    {
        wipe_bytes(&mut self.bytes);
    }
}

/// Overwrites every byte of `b` with zero.
fn wipe_bytes(b: &mut [u8; 64])
    ensures
        final(b)@.len() == 64,
        all_zero(final(b)@),
    opens_invariants none
    no_unwind
{
    let mut i: usize = 0;
    while i < 64
        invariant
            0 <= i <= 64,
            b@.len() == 64,
            forall|j: int| 0 <= j < i ==> b@[j] == 0,
        decreases 64 - i,
    {
        b[i] = 0;
        i = i + 1;
    }
    keep_stores(b);
}

/// Relies on std::hint::black_box, an identity function that the compiler is
/// asked to treat as reading its argument: the zeroing stores above then stay
/// in the compiled code rather than being removed as dead before the storage
/// is freed (a best-effort hint, as its documentation says). It does not
/// change the bytes.
#[verifier::external_body]
fn keep_stores(b: &mut [u8; 64])
    ensures
        *final(b) == *old(b),
    opens_invariants none
    no_unwind
{
    std::hint::black_box(b);
}

} // verus!
