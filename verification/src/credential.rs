//! Stored WebAuthn device state and the stateful credential verifier.
//!
//! A `CredentialRecord` is the per-device anti-replay state machine: its
//! state is `(sign_count, backup_state)`, its only transition is a
//! successful assertion verification, and the mutation happens strictly
//! inside the success branch — a failed verification leaves the record
//! untouched, so verification is safe to re-run speculatively.

use vstd::prelude::*;

use crate::assertion::Assertion;
use crate::attestation::Attestation;
use crate::authenticator_data::parse_authenticator_data;
use crate::authenticator_data::spec_flag_backup_eligible;
use crate::authenticator_data::spec_flag_backup_state;
use crate::authenticator_data::spec_parse_authenticator_data;
use crate::bytes::push_bytes;
use crate::capability::VerifyCredential;
use crate::crypto::es256_verifies;
use crate::crypto::es256_verify;
use crate::crypto::sha256;
use crate::crypto::sha256_of;
use crate::errors::reject_of_parse;
use crate::errors::spec_reject_of_parse;
use crate::errors::RejectReason;
use crate::DEREncodedPublicKey;
use crate::DeviceId;

verus! {

/// A stored WebAuthn credential without replay state: the device identifier
/// and the DER-encoded public key taken from its attestation.
#[derive(Clone, Copy, Debug, PartialEq, Eq)]
pub struct Credential {
    pub device_id: DeviceId,
    pub public_key: DEREncodedPublicKey,
}

/// Stored WebAuthn device state: the credential plus the anti-replay
/// counter and backup flags, mutated only by successful verification.
#[derive(Clone, Copy, Debug, PartialEq, Eq)]
pub struct CredentialRecord {
    pub device_id: DeviceId,
    pub public_key: DEREncodedPublicKey,
    pub sign_count: u32,
    pub backup_eligible: bool,
    pub backup_state: bool,
}

/// Replay acceptance: a zero presented count is the sentinel of a device
/// without a counter and is always accepted; otherwise the presented count
/// must strictly exceed the stored one.
pub open spec fn spec_replay_ok(presented: u32, stored: u32) -> bool {
    presented == 0 || presented > stored
}

/// The byte string a WebAuthn assertion signature covers: the raw
/// authenticator data followed by the SHA-256 digest of the client data.
pub open spec fn spec_assertion_message(authenticator_data: Seq<u8>, client_data: Seq<u8>) -> Seq<
    u8,
> {
    authenticator_data + sha256_of(client_data)
}

/// The record constructed at registration from an attestation: fresh
/// counter, flags as the authenticator reported them; when the
/// authenticator data does not parse, both flags fall back to false, since
/// record construction must be infallible.
pub open spec fn spec_record_of_attestation(a: Attestation) -> CredentialRecord {
    match spec_parse_authenticator_data(a.authenticator_data@) {
        Ok(ad) => CredentialRecord {
            device_id: a.meta.device_id,
            public_key: a.public_key,
            sign_count: 0,
            backup_eligible: spec_flag_backup_eligible(ad.flags),
            backup_state: spec_flag_backup_state(ad.flags),
        },
        Err(_) => CredentialRecord {
            device_id: a.meta.device_id,
            public_key: a.public_key,
            sign_count: 0,
            backup_eligible: false,
            backup_state: false,
        },
    }
}

impl CredentialRecord {
    /// Flag consistency: a record never claims backup state without backup
    /// eligibility.
    pub open spec fn spec_consistent(self) -> bool {
        self.backup_state ==> self.backup_eligible
    }

    /// The verification decision on an assertion, and the record committed
    /// on success: the authenticator data must re-parse; the presented sign
    /// count must pass the replay rule; backup eligibility must not have
    /// changed since registration, and backup state must stay consistent
    /// with it; the signature must verify over the assertion message under
    /// the stored public key. Success commits exactly the presented sign
    /// count and backup state.
    pub open spec fn spec_assertion_decision(self, a: Assertion) -> Result<
        CredentialRecord,
        RejectReason,
    > {
        match spec_parse_authenticator_data(a.authenticator_data@) {
            Err(e) => Err(spec_reject_of_parse(e)),
            Ok(ad) => if !spec_replay_ok(ad.sign_count, self.sign_count) {
                Err(RejectReason::ReplayDetected)
            } else if !(self.backup_eligible == spec_flag_backup_eligible(ad.flags)
                && (spec_flag_backup_eligible(ad.flags) || !spec_flag_backup_state(ad.flags))) {
                Err(RejectReason::FlagPolicyViolation)
            } else if !es256_verifies(
                self.public_key@,
                spec_assertion_message(a.authenticator_data@, a.client_data@),
                a.signature@,
            ) {
                Err(RejectReason::SignatureInvalid)
            } else {
                Ok(
                    CredentialRecord {
                        device_id: self.device_id,
                        public_key: self.public_key,
                        sign_count: ad.sign_count,
                        backup_eligible: self.backup_eligible,
                        backup_state: spec_flag_backup_state(ad.flags),
                    },
                )
            },
        }
    }

    /// Runs the verification steps against the stored record, reporting the
    /// first failure; only a fully successful run commits the new state.
    pub fn verify_assertion(&mut self, credential: &Assertion) -> (r: Result<(), RejectReason>)
        ensures
            r matches Ok(()) ==> old(self).spec_assertion_decision(*credential) matches Ok(c)
                && *final(self) == c,
            r matches Err(e) ==> old(self).spec_assertion_decision(*credential) == Err::<
                CredentialRecord,
                RejectReason,
            >(e) && *final(self) == *old(self),
    {
        let ad = match parse_authenticator_data(credential.authenticator_data.as_slice()) {
            Ok(ad) => ad,
            Err(e) => {
                return Err(reject_of_parse(e));
            },
        };
        if !(ad.sign_count == 0 || ad.sign_count > self.sign_count) {
            return Err(RejectReason::ReplayDetected);
        }
        let backup_eligible = ad.flags & 0x08 != 0;
        let backup_state = ad.flags & 0x10 != 0;
        if !(self.backup_eligible == backup_eligible && (backup_eligible || !backup_state)) {
            return Err(RejectReason::FlagPolicyViolation);
        }
        let mut message: Vec<u8> = Vec::new();
        push_bytes(&mut message, credential.authenticator_data.as_slice());
        let client_data_hash = sha256(credential.client_data.as_slice());
        push_bytes(&mut message, client_data_hash.as_slice());
        proof {
            assert(message@ =~= spec_assertion_message(
                credential.authenticator_data@,
                credential.client_data@,
            ));
        }
        if !es256_verify(&self.public_key, message.as_slice(), credential.signature.as_slice()) {
            return Err(RejectReason::SignatureInvalid);
        }
        self.sign_count = ad.sign_count;
        self.backup_state = backup_state;
        Ok(())
    }
}

/// The stored credential without replay state, as registration binds it.
impl From<Attestation> for Credential {
    fn from(attestation: Attestation) -> (r: Credential) {
        Credential { device_id: attestation.meta.device_id, public_key: attestation.public_key }
    }
}

impl vstd::std_specs::convert::FromSpecImpl<Attestation> for Credential {
    open spec fn obeys_from_spec() -> bool {
        true
    }

    open spec fn from_spec(attestation: Attestation) -> Self {
        Credential { device_id: attestation.meta.device_id, public_key: attestation.public_key }
    }
}

/// The stored device state created at registration.
impl From<Attestation> for CredentialRecord {
    fn from(attestation: Attestation) -> (r: CredentialRecord) {
        let (backup_eligible, backup_state) = match parse_authenticator_data(
            attestation.authenticator_data.as_slice(),
        ) {
            Ok(ad) => (ad.flags & 0x08 != 0, ad.flags & 0x10 != 0),
            Err(_) => (false, false),
        };
        CredentialRecord {
            device_id: attestation.meta.device_id,
            public_key: attestation.public_key,
            sign_count: 0,
            backup_eligible,
            backup_state,
        }
    }
}

impl vstd::std_specs::convert::FromSpecImpl<Attestation> for CredentialRecord {
    open spec fn obeys_from_spec() -> bool {
        true
    }

    open spec fn from_spec(attestation: Attestation) -> Self {
        spec_record_of_attestation(attestation)
    }
}

/// Verifies an assertion against the stored credential alone: the signature
/// must verify over the assertion message under the stored public key.
/// Success is binary; nothing is mutated either way.
impl VerifyCredential<Assertion> for Credential {
    open spec fn spec_accepts(&self, credential: &Assertion) -> bool {
        es256_verifies(
            self.public_key@,
            spec_assertion_message(credential.authenticator_data@, credential.client_data@),
            credential.signature@,
        )
    }

    open spec fn spec_committed(&self, credential: &Assertion) -> Self {
        *self
    }

    fn verify(&mut self, credential: &Assertion) -> (r: Option<()>) {
        let mut message: Vec<u8> = Vec::new();
        push_bytes(&mut message, credential.authenticator_data.as_slice());
        let client_data_hash = sha256(credential.client_data.as_slice());
        push_bytes(&mut message, client_data_hash.as_slice());
        proof {
            assert(message@ =~= spec_assertion_message(
                credential.authenticator_data@,
                credential.client_data@,
            ));
        }
        if es256_verify(&self.public_key, message.as_slice(), credential.signature.as_slice()) {
            Some(())
        } else {
            None
        }
    }
}

/// Verifies an assertion against the stored record and, only on success,
/// commits the presented sign count and backup state.
impl VerifyCredential<Assertion> for CredentialRecord {
    open spec fn spec_accepts(&self, credential: &Assertion) -> bool {
        self.spec_assertion_decision(*credential) is Ok
    }

    open spec fn spec_committed(&self, credential: &Assertion) -> Self {
        match self.spec_assertion_decision(*credential) {
            Ok(c) => c,
            Err(_) => *self,
        }
    }

    fn verify(&mut self, credential: &Assertion) -> (r: Option<()>) {
        match self.verify_assertion(credential) {
            Ok(()) => Some(()),
            Err(_) => None,
        }
    }
}

/// Law (registration establishes the invariant): the record built from an
/// attestation that passed validation is flag-consistent, and so is the
/// fallback record built when the authenticator data does not parse.
pub proof fn lemma_registration_record_consistent(a: Attestation)
    requires
        a.spec_valid_attestation(),
    ensures
        spec_record_of_attestation(a).spec_consistent(),
{
}

/// Law (verification preserves the invariant): a successful assertion
/// verification always commits a flag-consistent record, and a failed one
/// changes nothing; so a consistent record stays consistent forever.
pub proof fn lemma_committed_record_consistent(record: CredentialRecord, a: Assertion)
    requires
        record.spec_assertion_decision(a) is Ok,
    ensures
        (match record.spec_assertion_decision(a) {
            Ok(c) => c,
            Err(_) => record,
        }).spec_consistent(),
{
}

/// Law (replay defense): a successful verification never lowers the stored
/// sign count, and a non-zero presented count strictly raises it.
pub proof fn lemma_sign_count_monotonic(record: CredentialRecord, a: Assertion)
    requires
        record.spec_assertion_decision(a) is Ok,
    ensures
        (match record.spec_assertion_decision(a) {
            Ok(c) => c,
            Err(_) => record,
        }).sign_count == 0 || (match record.spec_assertion_decision(a) {
            Ok(c) => c,
            Err(_) => record,
        }).sign_count > record.sign_count,
{
}

} // verus!
