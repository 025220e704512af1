//! Challenge extraction from client data, and the operation type strings.

use vstd::prelude::*;

use crate::bytes::array_from_slice;
use crate::crypto::base64url_decode;
use crate::crypto::base64url_decode_of;
use crate::webdata::client_data_of;
use crate::webdata::parse_client_data;
use crate::Challenge;

verus! {

/// The all-zero challenge substituted when decoding fails: validation then
/// proceeds and fails on the challenge comparison instead of panicking.
pub open spec fn spec_zero_challenge() -> Seq<u8> {
    Seq::new(32, |i: int| 0u8)
}

/// The client-data `type` string for a registration (attestation).
pub open spec fn spec_webauthn_create() -> Seq<u8> {
    seq![119u8, 101u8, 98u8, 97u8, 117u8, 116u8, 104u8, 110u8, 46u8, 99u8, 114u8, 101u8, 97u8, 116u8, 101u8]
}

/// The client-data `type` string for an authentication (assertion).
pub open spec fn spec_webauthn_get() -> Seq<u8> {
    seq![119u8, 101u8, 98u8, 97u8, 117u8, 116u8, 104u8, 110u8, 46u8, 103u8, 101u8, 116u8]
}

/// The UTF-8 bytes of "webauthn.create".
pub fn webauthn_create_bytes() -> (r: Vec<u8>)
    ensures
        r@ == spec_webauthn_create(),
{
    let mut v: Vec<u8> = Vec::new();
    v.push(119u8);
    v.push(101u8);
    v.push(98u8);
    v.push(97u8);
    v.push(117u8);
    v.push(116u8);
    v.push(104u8);
    v.push(110u8);
    v.push(46u8);
    v.push(99u8);
    v.push(114u8);
    v.push(101u8);
    v.push(97u8);
    v.push(116u8);
    v.push(101u8);
    proof {
        assert(v@ =~= spec_webauthn_create());
    }
    v
}

/// The UTF-8 bytes of "webauthn.get".
pub fn webauthn_get_bytes() -> (r: Vec<u8>)
    ensures
        r@ == spec_webauthn_get(),
{
    let mut v: Vec<u8> = Vec::new();
    v.push(119u8);
    v.push(101u8);
    v.push(98u8);
    v.push(97u8);
    v.push(117u8);
    v.push(116u8);
    v.push(104u8);
    v.push(110u8);
    v.push(46u8);
    v.push(103u8);
    v.push(101u8);
    v.push(116u8);
    proof {
        assert(v@ =~= spec_webauthn_get());
    }
    v
}

/// Challenge bytes recovered from the encoded challenge field: base64url
/// decode without padding, then the first 32 decoded bytes; `None` when
/// decoding fails or fewer than 32 bytes come out.
pub open spec fn spec_challenge_from_field(field: Seq<u8>) -> Option<Seq<u8>> {
    match base64url_decode_of(field) {
        Some(d) => if d.len() >= 32 {
            Some(d.subrange(0, 32))
        } else {
            None
        },
        None => None,
    }
}

/// What challenge extraction yields on a client-data document.
pub open spec fn spec_find_challenge(bytes: Seq<u8>) -> Option<Seq<u8>> {
    match client_data_of(bytes) {
        Some(cd) => spec_challenge_from_field(cd.1),
        None => None,
    }
}

/// Decodes the challenge field of an already parsed client-data document.
pub fn challenge_from_field(field: &[u8]) -> (r: Option<Challenge>)
    ensures
        r matches Some(c) ==> spec_challenge_from_field(field@) == Some(c@),
        r is None <==> spec_challenge_from_field(field@) is None,
{
    let decoded = match base64url_decode(field) {
        Some(d) => d,
        None => {
            return None;
        },
    };
    if decoded.len() >= 32 {
        Some(array_from_slice::<32>(decoded.as_slice(), 0))
    } else {
        None
    }
}

/// Parses a client-data document and decodes the challenge it carries.
/// `None` when the document does not parse or the challenge field does not
/// decode to at least 32 bytes.
pub fn find_challenge_from_client_data(client_data: Vec<u8>) -> (r: Option<Challenge>)
    ensures
        r matches Some(c) ==> spec_find_challenge(client_data@) == Some(c@),
        r is None <==> spec_find_challenge(client_data@) is None,
{
    let cd = match parse_client_data(client_data.as_slice()) {
        Some(cd) => cd,
        None => {
            return None;
        },
    };
    challenge_from_field(cd.challenge.as_slice())
}

} // verus!
