//! Credential verifier: the two entry points the outer pipeline runs, each
//! generic over the capability traits so that every credential kind plugs
//! in uniformly. Both first compare the credential's claimed challenge
//! against a freshly derived one, then run the credential's own checks; the
//! pipeline observes only acceptance or rejection.

use vstd::prelude::*;

use crate::assertion::Assertion;
use crate::attestation::Attestation;
use crate::authenticator_data::parse_authenticator_data;
use crate::bytes::bytes_eq;
use crate::capability::DeviceChallengeResponse;
use crate::capability::UserChallengeResponse;
use crate::capability::VerifyCredential;
use crate::challenger::generate;
use crate::challenger::spec_generate;
use crate::credential::spec_record_of_attestation;
use crate::credential::CredentialRecord;
use crate::errors::RejectReason;
use crate::Context;

verus! {

/// Whether a response's claimed (context, challenge) answers the challenge
/// freshly derived for `context` and `binding`.
pub open spec fn spec_challenge_answered(
    claimed: (Context, Seq<u8>),
    context: Context,
    binding: Seq<u8>,
) -> bool {
    claimed.0 == context && claimed.1 == spec_generate(context, binding)
}

/// Decides a device registration: the attempt is accepted exactly when the
/// response answers the freshly derived challenge and is valid. No state is
/// created here; on acceptance the caller builds the stored device state
/// from the response.
pub fn authorize_registration<A: DeviceChallengeResponse>(
    response: &A,
    context: Context,
    binding: &[u8],
) -> (r: Option<()>)
    ensures
        r is Some <==> spec_challenge_answered(response.spec_used_challenge(), context, binding@)
            && response.spec_valid(),
{
    let (claimed_context, claimed_challenge) = response.used_challenge();
    if claimed_context != context {
        return None;
    }
    let expected = generate(context, binding);
    if !bytes_eq(claimed_challenge.as_slice(), expected.as_slice()) {
        return None;
    }
    if !response.is_valid() {
        return None;
    }
    Some(())
}

/// Decides a user authentication against the stored device state: the
/// attempt is accepted exactly when the credential answers the freshly
/// derived challenge, passes its structural checks, and the stored state
/// accepts it. Only full acceptance commits the device's state update; any
/// failure leaves the stored state untouched.
pub fn authorize_authentication<C: UserChallengeResponse, D: VerifyCredential<C>>(
    device: &mut D,
    credential: &C,
    context: Context,
    binding: &[u8],
) -> (r: Option<()>)
    ensures
        r is Some <==> spec_challenge_answered(credential.spec_used_challenge(), context, binding@)
            && credential.spec_valid() && old(device).spec_accepts(credential),
        r is Some ==> *final(device) == old(device).spec_committed(credential),
        r is None ==> *final(device) == *old(device),
{
    let (claimed_context, claimed_challenge) = credential.used_challenge();
    if claimed_context != context {
        return None;
    }
    let expected = generate(context, binding);
    if !bytes_eq(claimed_challenge.as_slice(), expected.as_slice()) {
        return None;
    }
    if !credential.is_valid() {
        return None;
    }
    device.verify(credential)
}

/// The full WebAuthn registration decision, with the reason any failing
/// check gives: challenge comparison first, then attestation validation; on
/// success, the stored record for the new device.
pub open spec fn spec_register_webauthn(
    attestation: Attestation,
    context: Context,
    binding: Seq<u8>,
) -> Result<CredentialRecord, RejectReason> {
    if !spec_challenge_answered(
        (attestation.meta.context, attestation.spec_challenge()),
        context,
        binding,
    ) {
        Err(RejectReason::ChallengeMismatch)
    } else {
        match attestation.spec_validate() {
            Err(e) => Err(e),
            Ok(_) => Ok(spec_record_of_attestation(attestation)),
        }
    }
}

/// Registers a WebAuthn device: rejects a stale or foreign challenge, runs
/// the attestation checks, and on success builds the stored record with a
/// fresh counter and the reported backup flags.
pub fn register_webauthn_device(attestation: &Attestation, context: Context, binding: &[u8]) -> (r:
    Result<CredentialRecord, RejectReason>)
    ensures
        r matches Ok(record) ==> spec_register_webauthn(*attestation, context, binding@) == Ok::<
            CredentialRecord,
            RejectReason,
        >(record),
        r matches Err(e) ==> spec_register_webauthn(*attestation, context, binding@) == Err::<
            CredentialRecord,
            RejectReason,
        >(e),
{
    let claimed_challenge = attestation.challenge();
    if attestation.meta.context != context {
        return Err(RejectReason::ChallengeMismatch);
    }
    let expected = generate(context, binding);
    if !bytes_eq(claimed_challenge.as_slice(), expected.as_slice()) {
        return Err(RejectReason::ChallengeMismatch);
    }
    match attestation.validate() {
        Err(e) => Err(e),
        Ok(_) => {
            let (backup_eligible, backup_state) = match parse_authenticator_data(
                attestation.authenticator_data.as_slice(),
            ) {
                Ok(ad) => (ad.flags & 0x08 != 0, ad.flags & 0x10 != 0),
                Err(_) => (false, false),
            };
            Ok(
                CredentialRecord {
                    device_id: attestation.meta.device_id,
                    public_key: attestation.public_key,
                    sign_count: 0,
                    backup_eligible,
                    backup_state,
                },
            )
        },
    }
}

/// The full WebAuthn authentication decision, with the reason any failing
/// check gives: challenge comparison, the assertion's structural checks,
/// then the stored record's replay, flag and signature checks; on success,
/// the record to commit.
pub open spec fn spec_authenticate_webauthn(
    record: CredentialRecord,
    assertion: Assertion,
    context: Context,
    binding: Seq<u8>,
) -> Result<CredentialRecord, RejectReason> {
    if !spec_challenge_answered(
        (assertion.meta.context, assertion.spec_challenge()),
        context,
        binding,
    ) {
        Err(RejectReason::ChallengeMismatch)
    } else {
        match assertion.spec_validate() {
            Err(e) => Err(e),
            Ok(_) => record.spec_assertion_decision(assertion),
        }
    }
}

/// Authenticates a WebAuthn assertion against the stored record. Only a
/// fully successful run commits the new sign count and backup state; any
/// failure leaves the record untouched, so the call is safe to repeat.
pub fn authenticate_webauthn(
    record: &mut CredentialRecord,
    assertion: &Assertion,
    context: Context,
    binding: &[u8],
) -> (r: Result<(), RejectReason>)
    ensures
        r matches Ok(()) ==> spec_authenticate_webauthn(*old(record), *assertion, context, binding@)
            matches Ok(c) && *final(record) == c,
        r matches Err(e) ==> spec_authenticate_webauthn(
            *old(record),
            *assertion,
            context,
            binding@,
        ) == Err::<CredentialRecord, RejectReason>(e) && *final(record) == *old(record),
{
    let claimed_challenge = assertion.challenge();
    if assertion.meta.context != context {
        return Err(RejectReason::ChallengeMismatch);
    }
    let expected = generate(context, binding);
    if !bytes_eq(claimed_challenge.as_slice(), expected.as_slice()) {
        return Err(RejectReason::ChallengeMismatch);
    }
    match assertion.validate() {
        Err(e) => Err(e),
        Ok(_) => record.verify_assertion(assertion),
    }
}

} // verus!
