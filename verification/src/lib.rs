//! Credential authentication core for a ledger-style account model.
//!
//! The crate derives single-use challenges from an execution context, defines
//! the canonical byte layouts that raw-key credentials sign, parses and
//! validates WebAuthn attestation and assertion structures, and runs the
//! anti-replay state machine over stored credential records.

use vstd::prelude::*;

pub mod assertion;
pub mod attestation;
pub mod authenticator_data;
pub mod bytes;
pub mod capability;
pub mod challenger;
pub mod client_data;
pub mod credential;
pub mod crypto;
pub mod errors;
pub mod key_registration;
pub mod key_signature;
pub mod multi_signature;
pub mod pipeline;
pub mod signed_message;
pub mod webdata;

verus! {

/// 32-byte digest binding an execution context and an action to one
/// registration or authentication attempt.
pub type Challenge = [u8; 32];

/// 32-byte identifier of the issuing authority (relying-party realm).
pub type AuthorityId = [u8; 32];

/// 32-byte identifier of a registered device credential.
pub type DeviceId = [u8; 32];

/// 32-byte hash identifying the user on whose behalf a credential acts.
pub type HashedUserId = [u8; 32];

/// Execution context marker (for instance a block height) supplied by the
/// outer pipeline with every challenge request.
pub type Context = u64;

/// DER-encoded (SubjectPublicKeyInfo) P-256 public key, as WebAuthn
/// credentials carry it.
pub type DEREncodedPublicKey = [u8; 91];

} // verus!
