use edwards25519sha512batch::init::Initialized;
use edwards25519sha512batch::keypair::finish_keypair;
use edwards25519sha512batch::opening::{finish_opening, opened_buffer_len};
use edwards25519sha512batch::signing::{finish_signing, signed_buffer_len};
use edwards25519sha512batch::{Error, SecretKey, VerificationFailed};

fn numbered(n: usize) -> Vec<u8> {
    (0..n).map(|i| (i % 251) as u8).collect()
}

#[test]
fn initialization_status() {
    assert!(Initialized::from_init_status(0).unwrap().is_first());
    assert!(!Initialized::from_init_status(1).unwrap().is_first());
    assert_eq!(Initialized::from_init_status(-1).err(), Some(Error::Initialization));
    assert_eq!(Initialized::from_init_status(2).err(), Some(Error::Initialization));
}

#[test]
fn keypair_accepted_on_success() {
    let (pk, sk) = finish_keypair(0, [3u8; 32], SecretKey::from_bytes([9u8; 64])).unwrap();
    assert_eq!(pk.as_bytes(), &[3u8; 32]);
    assert_eq!(sk.as_bytes(), &[9u8; 64]);
}

#[test]
fn keypair_rejected_on_failure_status() {
    let r = finish_keypair(-1, [3u8; 32], SecretKey::from_bytes([9u8; 64]));
    assert_eq!(r.err(), Some(Error::Entropy));
}

#[test]
fn keypair_rejected_when_secret_is_all_zero() {
    let r = finish_keypair(0, [3u8; 32], SecretKey::from_bytes([0u8; 64]));
    assert_eq!(r.err(), Some(Error::Entropy));
}

#[test]
fn signed_buffer_is_message_plus_signature() {
    assert_eq!(signed_buffer_len(0), Ok(64));
    assert_eq!(signed_buffer_len(10), Ok(74));
    assert_eq!(signed_buffer_len(usize::MAX - 64), Ok(usize::MAX));
    assert_eq!(signed_buffer_len(usize::MAX - 63), Err(Error::Signing));
    assert_eq!(signed_buffer_len(usize::MAX), Err(Error::Signing));
}

#[test]
fn signing_keeps_reported_prefix() {
    let buf = numbered(80);
    let sm = finish_signing(10, 0, buf.clone(), 74).unwrap();
    assert_eq!(sm.len(), 74);
    assert_eq!(&sm[..], &buf[..74]);
}

#[test]
fn signing_empty_message() {
    let buf = numbered(64);
    let sm = finish_signing(0, 0, buf.clone(), 64).unwrap();
    assert_eq!(sm, buf);
}

#[test]
fn signing_length_is_message_plus_signature() {
    for m_len in 0..256usize {
        let sm = finish_signing(m_len, 0, numbered(m_len + 64), (m_len + 64) as u64).unwrap();
        assert_eq!(sm.len(), m_len + 64);
    }
}

#[test]
fn signing_rejects_failure_status() {
    assert_eq!(finish_signing(10, 1, numbered(74), 74), Err(Error::Signing));
    assert_eq!(finish_signing(10, -1, numbered(74), 74), Err(Error::Signing));
}

#[test]
fn signing_rejects_truncated_or_oversized_result() {
    assert_eq!(finish_signing(10, 0, numbered(74), 73), Err(Error::Signing));
    assert_eq!(finish_signing(10, 0, numbered(74), 75), Err(Error::Signing));
    assert_eq!(finish_signing(10, 0, numbered(74), 0), Err(Error::Signing));
    assert_eq!(finish_signing(0, 0, numbered(64), 10), Err(Error::Signing));
}

#[test]
fn signing_rejects_length_beyond_buffer() {
    assert_eq!(finish_signing(10, 0, numbered(70), 74), Err(Error::Signing));
}

#[test]
fn short_input_is_rejected_before_opening() {
    for n in 0..64usize {
        assert_eq!(opened_buffer_len(n), Err(VerificationFailed));
        assert_eq!(finish_opening(n, 0, numbered(n), 0), Err(VerificationFailed));
    }
    assert_eq!(opened_buffer_len(64), Ok(64));
    assert_eq!(opened_buffer_len(100), Ok(100));
}

#[test]
fn opening_keeps_reported_prefix() {
    let buf = numbered(100);
    let m = finish_opening(100, 0, buf.clone(), 36).unwrap();
    assert_eq!(m, buf[..36].to_vec());
}

#[test]
fn opening_exactly_a_signature_gives_empty_message() {
    assert_eq!(finish_opening(64, 0, numbered(64), 0), Ok(Vec::new()));
}

#[test]
fn opening_rejects_failure_status() {
    assert_eq!(finish_opening(100, -1, numbered(100), 36), Err(VerificationFailed));
}

#[test]
fn opening_rejects_wrong_reported_length() {
    assert_eq!(finish_opening(100, 0, numbered(100), 35), Err(VerificationFailed));
    assert_eq!(finish_opening(100, 0, numbered(100), 37), Err(VerificationFailed));
    assert_eq!(finish_opening(100, 0, numbered(30), 36), Err(VerificationFailed));
}

#[test]
fn signed_message_opens_to_message_length() {
    for m_len in 0..256usize {
        let sm = finish_signing(m_len, 0, numbered(m_len + 64), (m_len + 64) as u64).unwrap();
        let n = opened_buffer_len(sm.len()).unwrap();
        let m = finish_opening(sm.len(), 0, numbered(n), m_len as u64).unwrap();
        assert_eq!(m.len(), m_len);
    }
}
