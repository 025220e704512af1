//! WebAuthn authentication credential (assertion) and its structural
//! validation. The cryptographic and replay checks live with the stored
//! credential record, which alone holds the public key that can
//! authenticate the signer.

use vstd::prelude::*;

use crate::authenticator_data::parse_authenticator_data;
use crate::authenticator_data::spec_flag_user_present;
use crate::authenticator_data::spec_parse_authenticator_data;
use crate::bytes::bytes_eq;
use crate::capability::UserChallengeResponse;
use crate::client_data::challenge_from_field;
use crate::client_data::spec_find_challenge;
use crate::client_data::spec_webauthn_get;
use crate::client_data::spec_zero_challenge;
use crate::client_data::webauthn_get_bytes;
use crate::errors::reject_of_parse;
use crate::errors::spec_reject_of_parse;
use crate::errors::RejectReason;
use crate::webdata::client_data_of;
use crate::webdata::parse_client_data;
use crate::AuthorityId;
use crate::Challenge;
use crate::Context;
use crate::HashedUserId;

verus! {

/// Identification data an assertion carries beside its parsed buffers.
#[derive(Clone, Copy, Debug, PartialEq, Eq)]
pub struct AssertionMeta {
    pub authority_id: AuthorityId,
    pub user_id: HashedUserId,
    pub context: Context,
}

/// An authentication credential produced by a WebAuthn device: the raw
/// authenticator data and client data as collected, and the device's
/// signature over them.
#[derive(Clone, Debug, PartialEq, Eq)]
pub struct Assertion {
    pub meta: AssertionMeta,
    pub authenticator_data: Vec<u8>,
    pub client_data: Vec<u8>,
    pub signature: Vec<u8>,
}

impl Assertion {
    /// The challenge this assertion answers; decoding failure yields the
    /// all-zero challenge — never a panic.
    pub open spec fn spec_challenge(self) -> Seq<u8> {
        match spec_find_challenge(self.client_data@) {
            Some(c) => c,
            None => spec_zero_challenge(),
        }
    }

    /// Extracts and decodes the challenge, substituting zeroes on failure.
    pub fn challenge(&self) -> (r: Challenge)
        ensures
            r@ == self.spec_challenge(),
    {
        let decoded: Option<Challenge> = match parse_client_data(self.client_data.as_slice()) {
            Some(cd) => challenge_from_field(cd.challenge.as_slice()),
            None => None,
        };
        match decoded {
            Some(c) => c,
            None => {
                let zero: Challenge = [0u8; 32];
                proof {
                    assert(zero@ =~= spec_zero_challenge());
                }
                zero
            },
        }
    }

    /// The structural decision on this assertion: the client data parses,
    /// the authenticator data parses, the client-data type is
    /// "webauthn.get", and the user was present.
    pub open spec fn spec_validate(self) -> Result<(), RejectReason> {
        match client_data_of(self.client_data@) {
            None => Err(RejectReason::MalformedJsonOrUtf8),
            Some(cd) => match spec_parse_authenticator_data(self.authenticator_data@) {
                Err(e) => Err(spec_reject_of_parse(e)),
                Ok(ad) => if cd.0 != spec_webauthn_get() {
                    Err(RejectReason::TypeMismatch)
                } else if !spec_flag_user_present(ad.flags) {
                    Err(RejectReason::FlagPolicyViolation)
                } else {
                    Ok(())
                },
            },
        }
    }

    /// Whether the assertion passes its structural checks.
    pub open spec fn spec_valid_assertion(self) -> bool {
        self.spec_validate() is Ok
    }

    /// Runs the structural checks, reporting the first failure.
    pub fn validate(&self) -> (r: Result<(), RejectReason>)
        ensures
            r == self.spec_validate(),
    {
        let cd = match parse_client_data(self.client_data.as_slice()) {
            Some(cd) => cd,
            None => {
                return Err(RejectReason::MalformedJsonOrUtf8);
            },
        };
        let ad = match parse_authenticator_data(self.authenticator_data.as_slice()) {
            Ok(ad) => ad,
            Err(e) => {
                return Err(reject_of_parse(e));
            },
        };
        let expected_ty = webauthn_get_bytes();
        if !bytes_eq(cd.ty.as_slice(), expected_ty.as_slice()) {
            return Err(RejectReason::TypeMismatch);
        }
        if ad.flags & 0x01 == 0 {
            return Err(RejectReason::FlagPolicyViolation);
        }
        Ok(())
    }
}

impl UserChallengeResponse for Assertion {
    open spec fn spec_valid(&self) -> bool {
        self.spec_valid_assertion()
    }

    open spec fn spec_used_challenge(&self) -> (Context, Seq<u8>) {
        (self.meta.context, self.spec_challenge())
    }

    open spec fn spec_authority(&self) -> AuthorityId {
        self.meta.authority_id
    }

    open spec fn spec_user_id(&self) -> HashedUserId {
        self.meta.user_id
    }

    fn is_valid(&self) -> (r: bool) {
        match self.validate() {
            Ok(_) => true,
            Err(_) => false,
        }
    }

    fn used_challenge(&self) -> (r: (Context, Challenge)) {
        (self.meta.context, self.challenge())
    }

    fn authority(&self) -> (r: AuthorityId) {
        self.meta.authority_id
    }

    fn user_id(&self) -> (r: HashedUserId) {
        self.meta.user_id
    }
}

} // verus!
