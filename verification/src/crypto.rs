//! Trusted boundary to the cryptographic crates.
//!
//! Every function here is `external_body`: its contract names the outside
//! call it relies on, and the rest of the crate is verified against these
//! contracts. Digests and signature checks are deterministic functions of
//! their byte arguments, so each is given an uninterpreted name; signing is
//! randomized (for the Schnorr scheme), so a signing wrapper promises only
//! that whatever signature comes back verifies under the matching public key.

use vstd::prelude::*;

use base64::Engine;
use blake2::Digest;
use ed25519_dalek::Signer;
use ed25519_dalek::Verifier;
use p256::ecdsa::signature::Verifier as EcdsaVerifier;
use p256::pkcs8::DecodePublicKey;

verus! {

/// SHA-256 digest (32 bytes) of a byte string.
pub uninterp spec fn sha256_of(data: Seq<u8>) -> Seq<u8>;

/// BLAKE2b-256 digest (32 bytes) of a byte string.
pub uninterp spec fn blake2b256_of(data: Seq<u8>) -> Seq<u8>;

/// Schnorr/Ristretto public key derived from a 32-byte seed.
pub uninterp spec fn sr25519_public_of(seed: Seq<u8>) -> Seq<u8>;

/// Whether a Schnorr/Ristretto signature over `msg` verifies under `pk`.
pub uninterp spec fn sr25519_verifies(pk: Seq<u8>, msg: Seq<u8>, sig: Seq<u8>) -> bool;

/// Ed25519 public key derived from a 32-byte seed.
pub uninterp spec fn ed25519_public_of(seed: Seq<u8>) -> Seq<u8>;

/// Whether an Ed25519 signature over `msg` verifies under `pk`.
pub uninterp spec fn ed25519_verifies(pk: Seq<u8>, msg: Seq<u8>, sig: Seq<u8>) -> bool;

/// Compressed (33-byte) secp256k1 public key derived from a 32-byte seed;
/// `None` when the seed is not a valid secret scalar.
pub uninterp spec fn ecdsa_public_of(seed: Seq<u8>) -> Option<Seq<u8>>;

/// Compressed public key recovered from a 65-byte recoverable ECDSA
/// signature over a 32-byte prehash; `None` when recovery fails.
pub uninterp spec fn ecdsa_recover_of(prehash: Seq<u8>, sig: Seq<u8>) -> Option<Seq<u8>>;

/// Recoverable secp256k1 ECDSA signature (64 bytes r||s, then the recovery
/// byte) that RFC6979 deterministic signing produces over a 32-byte
/// prehash: a function of the seed and the prehash alone; `None` when
/// signing fails.
pub uninterp spec fn ecdsa_sign_of(seed: Seq<u8>, prehash: Seq<u8>) -> Option<Seq<u8>>;

/// Whether a DER-encoded ECDSA P-256 signature over the SHA-256 digest of
/// `msg` verifies under the DER-encoded public key `pk_der`.
pub uninterp spec fn es256_verifies(pk_der: Seq<u8>, msg: Seq<u8>, sig_der: Seq<u8>) -> bool;

/// Relies on sha2::Sha256: the digest is a function of the input bytes alone.
#[verifier::external_body]
pub(crate) fn sha256(data: &[u8]) -> (r: [u8; 32])
    ensures
        r@ == sha256_of(data@),
{
    let d = sha2::Sha256::digest(data);
    let mut r = [0u8; 32];
    r.copy_from_slice(&d);
    r
}

/// Relies on blake2::Blake2b with 32-byte output: the digest is a function
/// of the input bytes alone.
#[verifier::external_body]
pub(crate) fn blake2b256(data: &[u8]) -> (r: [u8; 32])
    ensures
        r@ == blake2b256_of(data@),
{
    let d = blake2::Blake2b::<blake2::digest::consts::U32>::digest(data);
    let mut r = [0u8; 32];
    r.copy_from_slice(&d);
    r
}

/// Relies on schnorrkel::MiniSecretKey::expand_to_keypair (Ed25519 mode):
/// the derived public key is a function of the seed alone.
#[verifier::external_body]
pub(crate) fn sr25519_public(seed: &[u8; 32]) -> (r: [u8; 32])
    ensures
        r@ == sr25519_public_of(seed@),
{
    let mini = schnorrkel::MiniSecretKey::from_bytes(seed.as_slice())
        .expect("a 32-byte seed is a valid mini secret key");
    mini.expand_to_keypair(schnorrkel::ExpansionMode::Ed25519).public.to_bytes()
}

/// Relies on schnorrkel::Keypair::sign_simple with the b"substrate" signing
/// context. Signing draws a fresh nonce, so only the documented round trip
/// is promised: the signature verifies under the seed's public key.
#[verifier::external_body]
pub(crate) fn sr25519_sign(seed: &[u8; 32], msg: &[u8]) -> (sig: [u8; 64])
    ensures
        sr25519_verifies(sr25519_public_of(seed@), msg@, sig@),
{
    let mini = schnorrkel::MiniSecretKey::from_bytes(seed.as_slice())
        .expect("a 32-byte seed is a valid mini secret key");
    let keypair = mini.expand_to_keypair(schnorrkel::ExpansionMode::Ed25519);
    keypair.sign_simple(b"substrate", msg).to_bytes()
}

/// Relies on schnorrkel::PublicKey::verify_simple with the b"substrate"
/// signing context; an undecodable key or signature verifies as false.
#[verifier::external_body]
pub(crate) fn sr25519_verify(pk: &[u8; 32], msg: &[u8], sig: &[u8; 64]) -> (r: bool)
    ensures
        r == sr25519_verifies(pk@, msg@, sig@),
{
    let Ok(public) = schnorrkel::PublicKey::from_bytes(pk.as_slice()) else {
        return false;
    };
    let Ok(signature) = schnorrkel::Signature::from_bytes(sig.as_slice()) else {
        return false;
    };
    public.verify_simple(b"substrate", msg, &signature).is_ok()
}

/// Relies on ed25519_dalek::SigningKey::verifying_key: the derived public
/// key is a function of the seed alone.
#[verifier::external_body]
pub(crate) fn ed25519_public(seed: &[u8; 32]) -> (r: [u8; 32])
    ensures
        r@ == ed25519_public_of(seed@),
{
    ed25519_dalek::SigningKey::from_bytes(seed).verifying_key().to_bytes()
}

/// Relies on ed25519_dalek::SigningKey::sign: Ed25519 signing is
/// deterministic and the documentation promises the signature verifies
/// under the matching verifying key.
#[verifier::external_body]
pub(crate) fn ed25519_sign(seed: &[u8; 32], msg: &[u8]) -> (sig: [u8; 64])
    ensures
        ed25519_verifies(ed25519_public_of(seed@), msg@, sig@),
{
    ed25519_dalek::SigningKey::from_bytes(seed).sign(msg).to_bytes()
}

/// Relies on ed25519_dalek::VerifyingKey::verify; an undecodable key
/// verifies as false.
#[verifier::external_body]
pub(crate) fn ed25519_verify(pk: &[u8; 32], msg: &[u8], sig: &[u8; 64]) -> (r: bool)
    ensures
        r == ed25519_verifies(pk@, msg@, sig@),
{
    let Ok(key) = ed25519_dalek::VerifyingKey::from_bytes(pk) else {
        return false;
    };
    let signature = ed25519_dalek::Signature::from_bytes(sig);
    key.verify(msg, &signature).is_ok()
}

/// Relies on k256::ecdsa::SigningKey::from_slice and VerifyingKey: the
/// compressed public key is a function of the seed alone, and derivation
/// fails exactly when the seed is not a valid secret scalar.
#[verifier::external_body]
pub(crate) fn ecdsa_public(seed: &[u8; 32]) -> (r: Option<[u8; 33]>)
    ensures
        r matches Some(pk) ==> ecdsa_public_of(seed@) == Some(pk@),
        r is None ==> ecdsa_public_of(seed@) is None,
{
    let key = k256::ecdsa::SigningKey::from_slice(seed.as_slice()).ok()?;
    let point = key.verifying_key().to_encoded_point(true);
    let mut pk = [0u8; 33];
    pk.copy_from_slice(point.as_bytes());
    Some(pk)
}

/// Relies on k256::ecdsa::SigningKey::sign_prehash_recoverable: signing is
/// RFC6979-deterministic, a function of the seed and the prehash alone, and
/// the documentation promises that recovering from the produced signature
/// and recovery id yields the signer's public key.
#[verifier::external_body]
pub(crate) fn ecdsa_sign_prehashed(seed: &[u8; 32], prehash: &[u8; 32]) -> (r: Option<[u8; 65]>)
    ensures
        r matches Some(sig) ==> ({
            &&& ecdsa_sign_of(seed@, prehash@) == Some(sig@)
            &&& ecdsa_public_of(seed@) matches Some(pk)
            &&& ecdsa_recover_of(prehash@, sig@) == Some(pk)
        }),
        r is None ==> ecdsa_sign_of(seed@, prehash@) is None,
{
    let key = k256::ecdsa::SigningKey::from_slice(seed.as_slice()).ok()?;
    let (signature, recovery_id) = key.sign_prehash_recoverable(prehash.as_slice()).ok()?;
    let mut sig = [0u8; 65];
    sig[..64].copy_from_slice(&signature.to_bytes());
    sig[64] = recovery_id.to_byte();
    Some(sig)
}

/// Relies on k256::ecdsa::VerifyingKey::recover_from_prehash over a 65-byte
/// r||s||v signature; the recovered key is a function of prehash and
/// signature alone.
#[verifier::external_body]
pub(crate) fn ecdsa_recover(prehash: &[u8; 32], sig: &[u8; 65]) -> (r: Option<[u8; 33]>)
    ensures
        r matches Some(pk) ==> ecdsa_recover_of(prehash@, sig@) == Some(pk@),
        r is None ==> ecdsa_recover_of(prehash@, sig@) is None,
{
    let recovery_id = k256::ecdsa::RecoveryId::from_byte(sig[64])?;
    let signature = k256::ecdsa::Signature::from_slice(&sig[..64]).ok()?;
    let key =
        k256::ecdsa::VerifyingKey::recover_from_prehash(prehash.as_slice(), &signature, recovery_id)
            .ok()?;
    let mut pk = [0u8; 33];
    pk.copy_from_slice(key.to_encoded_point(true).as_bytes());
    Some(pk)
}

/// Relies on p256::ecdsa::VerifyingKey::from_public_key_der,
/// Signature::from_der and Verifier::verify (ES256: ECDSA P-256 over the
/// SHA-256 digest of the message); an undecodable key or signature verifies
/// as false.
#[verifier::external_body]
pub(crate) fn es256_verify(pk_der: &[u8; 91], msg: &[u8], sig_der: &[u8]) -> (r: bool)
    ensures
        r == es256_verifies(pk_der@, msg@, sig_der@),
{
    let Ok(key) = p256::ecdsa::VerifyingKey::from_public_key_der(pk_der.as_slice()) else {
        return false;
    };
    let Ok(signature) = p256::ecdsa::Signature::from_der(sig_der) else {
        return false;
    };
    key.verify(msg, &signature).is_ok()
}

/// Relies on base64's URL-safe no-padding alphabet: decoding is a function
/// of the input bytes alone.
pub uninterp spec fn base64url_decode_of(data: Seq<u8>) -> Option<Seq<u8>>;

/// Relies on base64::engine::general_purpose::URL_SAFE_NO_PAD::decode.
#[verifier::external_body]
pub(crate) fn base64url_decode(data: &[u8]) -> (r: Option<Vec<u8>>)
    ensures
        r matches Some(d) ==> base64url_decode_of(data@) == Some(d@),
        r is None ==> base64url_decode_of(data@) is None,
{
    base64::engine::general_purpose::URL_SAFE_NO_PAD.decode(data).ok()
}

} // verus!
