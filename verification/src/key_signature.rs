//! Authentication credential for the raw-key scheme.

use vstd::prelude::*;

use crate::capability::UserChallengeResponse;
use crate::multi_signature::MultiSignature;
use crate::signed_message::SignedMessage;
use crate::AuthorityId;
use crate::Challenge;
use crate::Context;
use crate::HashedUserId;

verus! {

/// The signature of a message with a given key, presented to authenticate
/// as `user_id`.
#[derive(Clone, Copy, Debug, PartialEq, Eq)]
pub struct KeySignature {
    pub user_id: HashedUserId,
    pub message: SignedMessage,
    pub signature: MultiSignature,
}

impl UserChallengeResponse for KeySignature {
    /// A `KeySignature` is structurally valid as presented; verifying the
    /// signature is the stored device's task, since only the stored public
    /// key — not the presented credential alone — can authenticate the
    /// signer.
    open spec fn spec_valid(&self) -> bool {
        true
    }

    open spec fn spec_used_challenge(&self) -> (Context, Seq<u8>) {
        (self.message.context, self.message.challenge@)
    }

    open spec fn spec_authority(&self) -> AuthorityId {
        self.message.authority_id
    }

    open spec fn spec_user_id(&self) -> HashedUserId {
        self.user_id
    }

    fn is_valid(&self) -> (r: bool) {
        true
    }

    fn used_challenge(&self) -> (r: (Context, Challenge)) {
        (self.message.context, self.message.challenge)
    }

    fn authority(&self) -> (r: AuthorityId) {
        self.message.authority_id
    }

    fn user_id(&self) -> (r: HashedUserId) {
        self.user_id
    }
}

} // verus!
