//! The canonical envelope that raw-key credentials sign.
//!
//! The byte layout is `encode(context) || challenge || authority_id`, with
//! the context as fixed-width little-endian bytes. This ordering is the one
//! this crate versions; a signature made over any other ordering of the same
//! fields does not verify here, and no alternative ordering is accepted.

use vstd::prelude::*;

use crate::bytes::push_bytes;
use crate::crypto::ecdsa_public_of;
use crate::crypto::ecdsa_sign_of;
use crate::crypto::ecdsa_sign_prehashed;
use crate::crypto::ed25519_public;
use crate::crypto::ed25519_public_of;
use crate::crypto::ed25519_sign;
use crate::crypto::sr25519_public;
use crate::crypto::sr25519_public_of;
use crate::crypto::sr25519_sign;
use crate::crypto::blake2b256;
use crate::crypto::blake2b256_of;
use crate::multi_signature::spec_multi_verifies;
use crate::multi_signature::AccountId32;
use crate::multi_signature::MultiSignature;
use crate::AuthorityId;
use crate::Challenge;
use crate::Context;
use vstd::bytes::spec_u64_to_le_bytes;
use vstd::bytes::u64_to_le_bytes;

verus! {

/// A message to be signed: the challenge bound to its context and the
/// authority it addresses.
#[derive(Clone, Copy, Debug, PartialEq, Eq)]
pub struct SignedMessage {
    pub context: Context,
    pub challenge: Challenge,
    pub authority_id: AuthorityId,
}

impl SignedMessage {
    /// The canonical byte layout of this message.
    pub open spec fn spec_message(self) -> Seq<u8> {
        spec_u64_to_le_bytes(self.context) + self.challenge@ + self.authority_id@
    }

    /// Serializes the message into its canonical byte layout.
    pub fn message(&self) -> (r: Vec<u8>)
        ensures
            r@ == self.spec_message(),
    {
        let mut out = u64_to_le_bytes(self.context);
        push_bytes(&mut out, self.challenge.as_slice());
        push_bytes(&mut out, self.authority_id.as_slice());
        proof {
            assert(out@ =~= self.spec_message());
        }
        out
    }
}

/// A Schnorr/Ristretto key pair, held as its 32-byte seed.
#[derive(Clone, Copy, Debug, PartialEq, Eq)]
pub struct Sr25519Pair(pub [u8; 32]);

/// An Ed25519 key pair, held as its 32-byte seed.
#[derive(Clone, Copy, Debug, PartialEq, Eq)]
pub struct Ed25519Pair(pub [u8; 32]);

/// A secp256k1 ECDSA key pair, held as its 32-byte seed.
#[derive(Clone, Copy, Debug, PartialEq, Eq)]
pub struct EcdsaPair(pub [u8; 32]);

impl Sr25519Pair {
    /// The account identifier of this pair: its public key.
    pub fn public(&self) -> (r: AccountId32)
        ensures
            r.0@ == sr25519_public_of(self.0@),
    {
        AccountId32(sr25519_public(&self.0))
    }
}

impl Ed25519Pair {
    /// The account identifier of this pair: its public key.
    pub fn public(&self) -> (r: AccountId32)
        ensures
            r.0@ == ed25519_public_of(self.0@),
    {
        AccountId32(ed25519_public(&self.0))
    }
}

impl EcdsaPair {
    /// The account identifier of this pair: the BLAKE2b-256 hash of its
    /// compressed public key. `None` when the seed is not a valid scalar.
    pub fn public(&self) -> (r: Option<AccountId32>)
        ensures
            r matches Some(a) ==> ecdsa_public_of(self.0@) matches Some(pk) && a.0@
                == blake2b256_of(pk),
            r is None ==> ecdsa_public_of(self.0@) is None,
    {
        match crate::crypto::ecdsa_public(&self.0) {
            Some(pk) => Some(AccountId32(blake2b256(pk.as_slice()))),
            None => None,
        }
    }
}

/// Allows a message to be signed by a signer of one of the supported
/// algorithm families, returning an algorithm-tagged [`MultiSignature`].
pub trait Sign<S>: Sized {
    /// What a signature produced by `signer` over this value promises.
    spec fn spec_signed(&self, signer: S, sig: MultiSignature) -> bool;

    /// Signs this value, returning an algorithm-tagged signature.
    fn sign(&self, signer: S) -> (r: MultiSignature)
        ensures
            self.spec_signed(signer, r),
    ;
}

impl Sign<Sr25519Pair> for SignedMessage {
    open spec fn spec_signed(&self, signer: Sr25519Pair, sig: MultiSignature) -> bool {
        sig is Sr25519 && spec_multi_verifies(sig, self.spec_message(), sr25519_public_of(
            signer.0@,
        ))
    }

    fn sign(&self, signer: Sr25519Pair) -> (r: MultiSignature) {
        let msg = self.message();
        MultiSignature::Sr25519(sr25519_sign(&signer.0, msg.as_slice()))
    }
}

impl Sign<Ed25519Pair> for SignedMessage {
    open spec fn spec_signed(&self, signer: Ed25519Pair, sig: MultiSignature) -> bool {
        sig is Ed25519 && spec_multi_verifies(sig, self.spec_message(), ed25519_public_of(
            signer.0@,
        ))
    }

    fn sign(&self, signer: Ed25519Pair) -> (r: MultiSignature) {
        let msg = self.message();
        MultiSignature::Ed25519(ed25519_sign(&signer.0, msg.as_slice()))
    }
}

impl Sign<EcdsaPair> for SignedMessage {
    /// Signing is deterministic for this family: a valid signer's signature
    /// is the one RFC6979 produces over the message's BLAKE2b-256 prehash,
    /// and it verifies under the hash of the signer's public key. Only when
    /// the signing call fails — in particular for a seed outside the scalar
    /// field — does the all-zero placeholder come back instead.
    open spec fn spec_signed(&self, signer: EcdsaPair, sig: MultiSignature) -> bool {
        match sig {
            MultiSignature::Ecdsa(s) => match ecdsa_sign_of(
                signer.0@,
                blake2b256_of(self.spec_message()),
            ) {
                Some(produced) => s@ == produced && match ecdsa_public_of(signer.0@) {
                    Some(pk) => spec_multi_verifies(sig, self.spec_message(), blake2b256_of(pk)),
                    None => false,
                },
                None => s == vstd::array::spec_array_fill_for_copy_type::<u8, 65>(0u8),
            },
            _ => false,
        }
    }

    fn sign(&self, signer: EcdsaPair) -> (r: MultiSignature) {
        let msg = self.message();
        let prehash = blake2b256(msg.as_slice());
        match ecdsa_sign_prehashed(&signer.0, &prehash) {
            Some(sig) => MultiSignature::Ecdsa(sig),
            None => MultiSignature::Ecdsa([0u8; 65]),
        }
    }
}

} // verus!
