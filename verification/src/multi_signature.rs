//! Algorithm-tagged signatures and their verification against a stored
//! 32-byte account identifier.

use vstd::prelude::*;

use crate::bytes::bytes_eq;
use crate::crypto::blake2b256;
use crate::crypto::blake2b256_of;
use crate::crypto::ecdsa_recover;
use crate::crypto::ecdsa_recover_of;
use crate::crypto::ed25519_verifies;
use crate::crypto::ed25519_verify;
use crate::crypto::sr25519_verifies;
use crate::crypto::sr25519_verify;

verus! {

/// A 32-byte account identifier. For the Schnorr and Edwards families it is
/// the public key itself; for the ECDSA family it is the BLAKE2b-256 hash of
/// the compressed public key.
#[derive(Clone, Copy, Debug, PartialEq, Eq)]
pub struct AccountId32(pub [u8; 32]);

/// A signature from one of the three supported algorithm families.
#[derive(Clone, Copy, Debug, PartialEq, Eq)]
pub enum MultiSignature {
    /// Schnorr/Ristretto signature (64 bytes).
    Sr25519([u8; 64]),
    /// Ed25519 signature (64 bytes).
    Ed25519([u8; 64]),
    /// Recoverable secp256k1 ECDSA signature over the BLAKE2b-256 prehash
    /// of the message (64 bytes r||s, then the recovery byte).
    Ecdsa([u8; 65]),
}

/// Whether `sig` verifies over `msg` for the account `who`.
pub open spec fn spec_multi_verifies(sig: MultiSignature, msg: Seq<u8>, who: Seq<u8>) -> bool {
    match sig {
        MultiSignature::Sr25519(s) => sr25519_verifies(who, msg, s@),
        MultiSignature::Ed25519(s) => ed25519_verifies(who, msg, s@),
        MultiSignature::Ecdsa(s) => match ecdsa_recover_of(blake2b256_of(msg), s@) {
            Some(pk) => blake2b256_of(pk) == who,
            None => false,
        },
    }
}

/// Verifies `sig` over `msg` against the account `who`. For the ECDSA
/// family the signer's key is recovered from the signature and compared to
/// the account by hash; for the other families the account bytes are the
/// public key.
pub fn verify_multi_signature(sig: &MultiSignature, msg: &[u8], who: &AccountId32) -> (r: bool)
    ensures
        r == spec_multi_verifies(*sig, msg@, who.0@),
{
    match sig {
        MultiSignature::Sr25519(s) => sr25519_verify(&who.0, msg, s),
        MultiSignature::Ed25519(s) => ed25519_verify(&who.0, msg, s),
        MultiSignature::Ecdsa(s) => {
            let prehash = blake2b256(msg);
            match ecdsa_recover(&prehash, s) {
                Some(pk) => {
                    let account_hash = blake2b256(pk.as_slice());
                    bytes_eq(account_hash.as_slice(), who.0.as_slice())
                },
                None => false,
            }
        },
    }
}

} // verus!
