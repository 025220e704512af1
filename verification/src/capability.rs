//! Challenge-response capability interfaces.
//!
//! Every credential variant (raw-key or WebAuthn) implements one of the two
//! response shapes, and every stored device state implements
//! `VerifyCredential` for the credentials it can check. The outer pipeline
//! is generic over these traits and never looks inside a credential.

use vstd::prelude::*;

use crate::AuthorityId;
use crate::Challenge;
use crate::Context;
use crate::DeviceId;
use crate::HashedUserId;

verus! {

/// A device-registration response: a credential presented to bind a new
/// device to an identity.
pub trait DeviceChallengeResponse: Sized {
    /// Structural and cryptographic validity of the response itself.
    spec fn spec_valid(&self) -> bool;

    /// The context and challenge bytes this response claims to answer.
    spec fn spec_used_challenge(&self) -> (Context, Seq<u8>);

    /// The authority (relying-party realm) the response addresses.
    spec fn spec_authority(&self) -> AuthorityId;

    /// The identifier of the device being registered.
    spec fn spec_device_id(&self) -> DeviceId;

    fn is_valid(&self) -> (r: bool)
        ensures
            r == self.spec_valid(),
    ;

    fn used_challenge(&self) -> (r: (Context, Challenge))
        ensures
            r.0 == self.spec_used_challenge().0,
            r.1@ == self.spec_used_challenge().1,
    ;

    fn authority(&self) -> (r: AuthorityId)
        ensures
            r == self.spec_authority(),
    ;

    fn device_id(&self) -> (r: DeviceId)
        ensures
            r == self.spec_device_id(),
    ;
}

/// A user-authentication response: a credential presented to prove
/// possession of a previously registered device.
pub trait UserChallengeResponse: Sized {
    /// Structural validity of the response itself; credential-bound checks
    /// belong to the stored device's verifier.
    spec fn spec_valid(&self) -> bool;

    /// The context and challenge bytes this response claims to answer.
    spec fn spec_used_challenge(&self) -> (Context, Seq<u8>);

    /// The authority (relying-party realm) the response addresses.
    spec fn spec_authority(&self) -> AuthorityId;

    /// The user on whose behalf the credential acts.
    spec fn spec_user_id(&self) -> HashedUserId;

    fn is_valid(&self) -> (r: bool)
        ensures
            r == self.spec_valid(),
    ;

    fn used_challenge(&self) -> (r: (Context, Challenge))
        ensures
            r.0 == self.spec_used_challenge().0,
            r.1@ == self.spec_used_challenge().1,
    ;

    fn authority(&self) -> (r: AuthorityId)
        ensures
            r == self.spec_authority(),
    ;

    fn user_id(&self) -> (r: HashedUserId)
        ensures
            r == self.spec_user_id(),
    ;
}

/// Stored device state that can verify an incoming credential and, only on
/// success, commit the resulting state update. Failure never mutates.
pub trait VerifyCredential<C>: Sized {
    /// Whether this stored state accepts the credential.
    spec fn spec_accepts(&self, credential: &C) -> bool;

    /// The stored state after a successful verification.
    spec fn spec_committed(&self, credential: &C) -> Self;

    fn verify(&mut self, credential: &C) -> (r: Option<()>)
        ensures
            r is Some <==> old(self).spec_accepts(credential),
            r is Some ==> *final(self) == old(self).spec_committed(credential),
            r is None ==> *final(self) == *old(self),
    ;
}

} // verus!
