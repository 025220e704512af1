//! Rejection reasons.
//!
//! The outer pipeline only ever observes "accepted" or "rejected"; these
//! kinds keep the causes distinguishable for diagnostics and tests.

use vstd::prelude::*;

verus! {

/// Why the binary parser refused an `authenticator_data` buffer.
#[derive(Clone, Copy, Debug, PartialEq, Eq, Structural)]
pub enum ParseError {
    /// The buffer is shorter than a structurally required field.
    Truncated,
    /// The COSE key or the trailing extensions are not decodable CBOR.
    MalformedCbor,
}

/// Why a credential was rejected. Every kind collapses to the same single
/// rejection signal at the pipeline boundary.
#[derive(Clone, Copy, Debug, PartialEq, Eq, Structural)]
pub enum RejectReason {
    /// A binary buffer is shorter than a structurally required field.
    Truncated,
    /// A COSE key or CBOR extensions block is undecodable.
    MalformedCbor,
    /// Client data is not valid UTF-8 JSON or misses a required field.
    MalformedJsonOrUtf8,
    /// The decoded challenge differs from the freshly generated one.
    ChallengeMismatch,
    /// The client-data `type` differs from the expected operation string.
    TypeMismatch,
    /// The relying-party id hash does not match the client-data origin.
    OriginMismatch,
    /// The user-presence / user-verification / backup flags break policy.
    FlagPolicyViolation,
    /// The presented sign count is non-zero and not above the stored one.
    ReplayDetected,
    /// Cryptographic signature verification failed.
    SignatureInvalid,
}

/// The rejection kind carried by a parse failure.
pub open spec fn spec_reject_of_parse(e: ParseError) -> RejectReason {
    match e {
        ParseError::Truncated => RejectReason::Truncated,
        ParseError::MalformedCbor => RejectReason::MalformedCbor,
    }
}

/// Maps a parse failure to the rejection it causes.
pub fn reject_of_parse(e: ParseError) -> (r: RejectReason)
    ensures
        r == spec_reject_of_parse(e),
{
    match e {
        ParseError::Truncated => RejectReason::Truncated,
        ParseError::MalformedCbor => RejectReason::MalformedCbor,
    }
}

} // verus!
