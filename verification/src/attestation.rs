//! WebAuthn registration credential (attestation) and its validation
//! policy.

use vstd::prelude::*;

use crate::authenticator_data::parse_authenticator_data;
use crate::authenticator_data::spec_flag_backup_eligible;
use crate::authenticator_data::spec_flag_backup_state;
use crate::authenticator_data::spec_flag_user_present;
use crate::authenticator_data::spec_flag_user_verified;
use crate::authenticator_data::spec_parse_authenticator_data;
use crate::bytes::bytes_eq;
use crate::capability::DeviceChallengeResponse;
use crate::client_data::challenge_from_field;
use crate::client_data::spec_find_challenge;
use crate::client_data::spec_webauthn_create;
use crate::client_data::spec_zero_challenge;
use crate::client_data::webauthn_create_bytes;
use crate::crypto::sha256;
use crate::crypto::sha256_of;
use crate::errors::reject_of_parse;
use crate::errors::spec_reject_of_parse;
use crate::errors::RejectReason;
use crate::webdata::client_data_of;
use crate::webdata::domain_of;
use crate::webdata::origin_domain;
use crate::webdata::parse_client_data;
use crate::AuthorityId;
use crate::Challenge;
use crate::Context;
use crate::DEREncodedPublicKey;
use crate::DeviceId;

verus! {

/// Identification data an attestation carries beside its parsed buffers.
/// The device id is a hash of the credential id, computed by the collector
/// that assembled the attestation, not by this crate.
#[derive(Clone, Copy, Debug, PartialEq, Eq)]
pub struct AttestationMeta {
    pub authority_id: AuthorityId,
    pub device_id: DeviceId,
    pub context: Context,
}

/// A registration credential produced by a WebAuthn device: the raw
/// authenticator data and client data as collected, and the new key pair's
/// DER-encoded public key.
#[derive(Clone, Debug, PartialEq, Eq)]
pub struct Attestation {
    pub meta: AttestationMeta,
    pub authenticator_data: Vec<u8>,
    pub client_data: Vec<u8>,
    pub public_key: DEREncodedPublicKey,
}

impl Attestation {
    /// The challenge this attestation answers. A client-data document that
    /// does not parse, or a challenge field that does not decode, yields
    /// the all-zero challenge — never a panic — which then fails the
    /// pipeline's comparison against the freshly derived challenge.
    pub open spec fn spec_challenge(self) -> Seq<u8> {
        match spec_find_challenge(self.client_data@) {
            Some(c) => c,
            None => spec_zero_challenge(),
        }
    }

    /// Extracts and decodes the challenge, substituting zeroes on failure.
    pub fn challenge(&self) -> (r: Challenge)
        ensures
            r@ == self.spec_challenge(),
    {
        let decoded: Option<Challenge> = match parse_client_data(self.client_data.as_slice()) {
            Some(cd) => challenge_from_field(cd.challenge.as_slice()),
            None => None,
        };
        match decoded {
            Some(c) => c,
            None => {
                let zero: Challenge = [0u8; 32];
                proof {
                    assert(zero@ =~= spec_zero_challenge());
                }
                zero
            },
        }
    }

    /// The registration decision on this attestation, with the reason any
    /// failing check gives. All of the following must hold: the client data
    /// parses; the authenticator data parses; the client-data type is
    /// "webauthn.create"; the relying-party id hash equals the SHA-256 of
    /// the origin's domain; a credential not eligible for backup is not
    /// marked backed up; the user was present; the user was verified.
    pub open spec fn spec_validate(self) -> Result<(), RejectReason> {
        match client_data_of(self.client_data@) {
            None => Err(RejectReason::MalformedJsonOrUtf8),
            Some(cd) => match spec_parse_authenticator_data(self.authenticator_data@) {
                Err(e) => Err(spec_reject_of_parse(e)),
                Ok(ad) => if cd.0 != spec_webauthn_create() {
                    Err(RejectReason::TypeMismatch)
                } else {
                    match domain_of(cd.2) {
                        None => Err(RejectReason::OriginMismatch),
                        Some(d) => if ad.rp_id_hash != sha256_of(d) {
                            Err(RejectReason::OriginMismatch)
                        } else if spec_flag_backup_state(ad.flags) && !spec_flag_backup_eligible(
                            ad.flags,
                        ) {
                            Err(RejectReason::FlagPolicyViolation)
                        } else if !spec_flag_user_present(ad.flags) {
                            Err(RejectReason::FlagPolicyViolation)
                        } else if !spec_flag_user_verified(ad.flags) {
                            Err(RejectReason::FlagPolicyViolation)
                        } else {
                            Ok(())
                        },
                    }
                },
            },
        }
    }

    /// Whether registration accepts this attestation.
    pub open spec fn spec_valid_attestation(self) -> bool {
        self.spec_validate() is Ok
    }

    /// Runs the registration checks, reporting the first failure.
    pub fn validate(&self) -> (r: Result<(), RejectReason>)
        ensures
            r == self.spec_validate(),
    {
        let cd = match parse_client_data(self.client_data.as_slice()) {
            Some(cd) => cd,
            None => {
                return Err(RejectReason::MalformedJsonOrUtf8);
            },
        };
        let ad = match parse_authenticator_data(self.authenticator_data.as_slice()) {
            Ok(ad) => ad,
            Err(e) => {
                return Err(reject_of_parse(e));
            },
        };
        let expected_ty = webauthn_create_bytes();
        if !bytes_eq(cd.ty.as_slice(), expected_ty.as_slice()) {
            return Err(RejectReason::TypeMismatch);
        }
        let domain = match origin_domain(cd.origin.as_slice()) {
            Some(d) => d,
            None => {
                return Err(RejectReason::OriginMismatch);
            },
        };
        let rp_id_hash = sha256(domain.as_slice());
        if !bytes_eq(ad.rp_id_hash.as_slice(), rp_id_hash.as_slice()) {
            return Err(RejectReason::OriginMismatch);
        }
        if (ad.flags & 0x10 != 0) && (ad.flags & 0x08 == 0) {
            return Err(RejectReason::FlagPolicyViolation);
        }
        if ad.flags & 0x01 == 0 {
            return Err(RejectReason::FlagPolicyViolation);
        }
        if ad.flags & 0x04 == 0 {
            return Err(RejectReason::FlagPolicyViolation);
        }
        Ok(())
    }
}

impl DeviceChallengeResponse for Attestation {
    open spec fn spec_valid(&self) -> bool {
        self.spec_valid_attestation()
    }

    open spec fn spec_used_challenge(&self) -> (Context, Seq<u8>) {
        (self.meta.context, self.spec_challenge())
    }

    open spec fn spec_authority(&self) -> AuthorityId {
        self.meta.authority_id
    }

    open spec fn spec_device_id(&self) -> DeviceId {
        self.meta.device_id
    }

    fn is_valid(&self) -> (r: bool) {
        match self.validate() {
            Ok(_) => true,
            Err(_) => false,
        }
    }

    fn used_challenge(&self) -> (r: (Context, Challenge)) {
        (self.meta.context, self.challenge())
    }

    fn authority(&self) -> (r: AuthorityId) {
        self.meta.authority_id
    }

    fn device_id(&self) -> (r: DeviceId) {
        self.meta.device_id
    }
}

} // verus!
