//! Registration credential for the raw-key scheme, and the verifier the
//! stored account identity runs against incoming key signatures.

use vstd::prelude::*;

use crate::capability::DeviceChallengeResponse;
use crate::capability::VerifyCredential;
use crate::crypto::blake2b256_of;
use crate::crypto::ecdsa_public_of;
use crate::crypto::ecdsa_sign_of;
use crate::crypto::ed25519_public_of;
use crate::crypto::sr25519_public_of;
use crate::key_signature::KeySignature;
use crate::multi_signature::spec_multi_verifies;
use crate::multi_signature::verify_multi_signature;
use crate::multi_signature::AccountId32;
use crate::multi_signature::MultiSignature;
use crate::signed_message::EcdsaPair;
use crate::signed_message::Ed25519Pair;
use crate::signed_message::Sign;
use crate::signed_message::SignedMessage;
use crate::signed_message::Sr25519Pair;
use crate::AuthorityId;
use crate::Challenge;
use crate::Context;
use crate::DeviceId;

verus! {

/// The registration of a key into the authenticator: the signed canonical
/// message, the public key being registered, and the signature over the
/// message made with that key.
#[derive(Clone, Copy, Debug, PartialEq, Eq)]
pub struct KeyRegistration {
    pub message: SignedMessage,
    pub public: AccountId32,
    pub signature: MultiSignature,
}

impl KeyRegistration {
    /// A registration is valid exactly when its signature verifies over its
    /// own canonical message under the embedded public key.
    pub open spec fn spec_valid_registration(self) -> bool {
        spec_multi_verifies(self.signature, self.message.spec_message(), self.public.0@)
    }
}

impl DeviceChallengeResponse for KeyRegistration {
    open spec fn spec_valid(&self) -> bool {
        self.spec_valid_registration()
    }

    open spec fn spec_used_challenge(&self) -> (Context, Seq<u8>) {
        (self.message.context, self.message.challenge@)
    }

    open spec fn spec_authority(&self) -> AuthorityId {
        self.message.authority_id
    }

    /// The registered public key doubles as the device identifier.
    open spec fn spec_device_id(&self) -> DeviceId {
        self.public.0
    }

    fn is_valid(&self) -> (r: bool) {
        let msg = self.message.message();
        verify_multi_signature(&self.signature, msg.as_slice(), &self.public)
    }

    fn used_challenge(&self) -> (r: (Context, Challenge)) {
        (self.message.context, self.message.challenge)
    }

    fn authority(&self) -> (r: AuthorityId) {
        self.message.authority_id
    }

    fn device_id(&self) -> (r: DeviceId) {
        self.public.0
    }
}

/// The stored device state of the raw-key scheme is the account identifier
/// itself, taken from the registration.
impl From<KeyRegistration> for AccountId32 {
    fn from(registration: KeyRegistration) -> (r: AccountId32) {
        registration.public
    }
}

impl vstd::std_specs::convert::FromSpecImpl<KeyRegistration> for AccountId32 {
    open spec fn obeys_from_spec() -> bool {
        true
    }

    open spec fn from_spec(registration: KeyRegistration) -> Self {
        registration.public
    }
}

/// Verifies an incoming key signature against the stored account: the
/// signature must verify over the credential's canonical message under the
/// stored public key. Success is binary; nothing is mutated either way.
impl VerifyCredential<KeySignature> for AccountId32 {
    open spec fn spec_accepts(&self, credential: &KeySignature) -> bool {
        spec_multi_verifies(credential.signature, credential.message.spec_message(), self.0@)
    }

    open spec fn spec_committed(&self, credential: &KeySignature) -> Self {
        *self
    }

    fn verify(&mut self, credential: &KeySignature) -> (r: Option<()>) {
        let who = *self;
        let msg = credential.message.message();
        if verify_multi_signature(&credential.signature, msg.as_slice(), &who) {
            Some(())
        } else {
            None
        }
    }
}

/// Law (round trip, Schnorr family): a message signed by a pair, registered
/// together with that pair's public key, is a valid registration.
pub proof fn lemma_sr25519_registration_round_trip(
    message: SignedMessage,
    signer: Sr25519Pair,
    sig: MultiSignature,
    public: AccountId32,
)
    requires
        message.spec_signed(signer, sig),
        public.0@ == sr25519_public_of(signer.0@),
    ensures
        (KeyRegistration { message, public, signature: sig }).spec_valid_registration(),
{
}

/// Law (round trip, ECDSA family): when deterministic signing succeeds, a
/// message signed by a pair, registered together with the hash of that
/// pair's public key, is a valid registration.
pub proof fn lemma_ecdsa_registration_round_trip(
    message: SignedMessage,
    signer: EcdsaPair,
    sig: MultiSignature,
    public: AccountId32,
)
    requires
        message.spec_signed(signer, sig),
        ecdsa_sign_of(signer.0@, blake2b256_of(message.spec_message())) is Some,
        ecdsa_public_of(signer.0@) matches Some(pk) && public.0@ == blake2b256_of(pk),
    ensures
        (KeyRegistration { message, public, signature: sig }).spec_valid_registration(),
{
}

/// Law (round trip, Edwards family): a message signed by a pair, registered
/// together with that pair's public key, is a valid registration.
pub proof fn lemma_ed25519_registration_round_trip(
    message: SignedMessage,
    signer: Ed25519Pair,
    sig: MultiSignature,
    public: AccountId32,
)
    requires
        message.spec_signed(signer, sig),
        public.0@ == ed25519_public_of(signer.0@),
    ensures
        (KeyRegistration { message, public, signature: sig }).spec_valid_registration(),
{
}

} // verus!
