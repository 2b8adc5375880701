//! Hashing, Ed25519 and the two sources of values that are not functions of
//! their arguments (fresh keys, the clock). The primitives are those of the
//! `blake3`, `ed25519-dalek`, `rand` and `time` crates.
use ed25519_dalek::Signer;
use vstd::prelude::*;

verus! {

/// The BLAKE3 digest (32 bytes) of some data.
pub uninterp spec fn blake3_digest(data: Seq<u8>) -> Seq<u8>;

/// The Ed25519 public key (compressed, 32 bytes) of a 32-byte secret key.
pub uninterp spec fn ed25519_public_key(secret: Seq<u8>) -> Seq<u8>;

/// The Ed25519 signature (64 bytes) of a message under a 32-byte secret key.
pub uninterp spec fn ed25519_signature(secret: Seq<u8>, msg: Seq<u8>) -> Seq<u8>;

/// Whether 32 bytes decode as an Ed25519 public key (a point on the curve).
pub uninterp spec fn ed25519_key_decodes(public: Seq<u8>) -> bool;

/// Whether a signature passes `verify_strict` for a message under a public key.
pub uninterp spec fn ed25519_verifies_strict(public: Seq<u8>, msg: Seq<u8>, sig: Seq<u8>) -> bool;

/// Hashes data with `blake3::hash`.
///
/// Trusted: the result is the named digest.
#[verifier::external_body]
pub(crate) fn blake3_hash(data: &[u8]) -> (res: [u8; 32])
    ensures
        res@ == blake3_digest(data@),
{
    *blake3::hash(data).as_bytes()
}

/// The public key of a secret key: `SigningKey::from_bytes(..).verifying_key().to_bytes()`.
///
/// Trusted: the result is the named public key, and it decodes again with
/// `VerifyingKey::from_bytes` (it is the compression of a curve point).
#[verifier::external_body]
pub(crate) fn ed25519_public(secret: &[u8; 32]) -> (res: [u8; 32])
    ensures
        res@ == ed25519_public_key(secret@),
        ed25519_key_decodes(res@),
{
    ed25519_dalek::SigningKey::from_bytes(secret).verifying_key().to_bytes()
}

/// Signs a message: `SigningKey::from_bytes(..).sign(..).to_bytes()`.
///
/// Trusted: the result is the named signature (Ed25519 signing is
/// deterministic).
#[verifier::external_body]
pub(crate) fn ed25519_sign(secret: &[u8; 32], msg: &[u8]) -> (res: [u8; 64])
    ensures
        res@ == ed25519_signature(secret@, msg@),
{
    ed25519_dalek::SigningKey::from_bytes(secret).sign(msg).to_bytes()
}

/// Whether `VerifyingKey::from_bytes` accepts 32 bytes.
///
/// Trusted: the result is the named predicate.
#[verifier::external_body]
pub(crate) fn ed25519_key_is_valid(public: &[u8; 32]) -> (res: bool)
    ensures
        res == ed25519_key_decodes(public@),
{
    ed25519_dalek::VerifyingKey::from_bytes(public).is_ok()
}

/// Checks a signature with `VerifyingKey::verify_strict`, the key decoded
/// from its 32 bytes and the signature from its 64.
///
/// Trusted: the result is the named predicate.
#[verifier::external_body]
pub(crate) fn ed25519_verify_strict(public: &[u8; 32], msg: &[u8], sig: &[u8; 64]) -> (res: bool)
    requires
        ed25519_key_decodes(public@),
    ensures
        res == ed25519_verifies_strict(public@, msg@, sig@),
{
    match ed25519_dalek::VerifyingKey::from_bytes(public) {
        Ok(vk) => vk.verify_strict(msg, &ed25519_dalek::Signature::from_bytes(sig)).is_ok(),
        Err(_) => false,
    }
}

/// A fresh secret key: `SigningKey::generate(&mut OsRng).to_bytes()`.
///
/// Nothing is stated of the result: it is random.
#[verifier::external_body]
pub(crate) fn random_secret_key() -> [u8; 32] {
    ed25519_dalek::SigningKey::generate(&mut rand::rngs::OsRng).to_bytes()
}

/// The current Unix time in seconds: `OffsetDateTime::now_utc().unix_timestamp()`.
///
/// Nothing is stated of the result: it is the clock.
#[verifier::external_body]
pub(crate) fn now_unix() -> i64 {
    time::OffsetDateTime::now_utc().unix_timestamp()
}

/// Whether `t` is a value that reading the clock ([`now_unix`]) gave: the
/// Unix time, in seconds, at the moment of some reading.
pub closed spec fn clock_reading(t: i64) -> bool {
    call_ensures(now_unix, (), t)
}

/// Reads the clock: the current Unix time in seconds.
pub(crate) fn clock_now() -> (t: i64)
    ensures
        clock_reading(t),
{
    now_unix()
}

} // verus!
