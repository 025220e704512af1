//! Trusted boundary to the crates that decode client-supplied WebAuthn
//! structures: the client-data JSON document, the origin URL, and the CBOR
//! blocks inside authenticator data. Each result is a function of the input
//! bytes alone, so each call is given an uninterpreted name that the rest of
//! the crate's contracts build on.

use vstd::prelude::*;

use coset::AsCborValue;
use coset::CborSerializable;

verus! {

/// The fields this crate consumes from a WebAuthn client-data JSON
/// document: `type`, `challenge` (base64url, unpadded), `origin`, and
/// `crossOrigin` (absent means false). Strings are held as their UTF-8
/// bytes.
pub struct ClientData {
    pub ty: Vec<u8>,
    pub challenge: Vec<u8>,
    pub origin: Vec<u8>,
    pub cross_origin: bool,
}

/// The (type, challenge, origin, crossOrigin) fields of a client-data JSON
/// document, or `None` when the bytes are not UTF-8 JSON or a required
/// field is missing or of the wrong type.
pub uninterp spec fn client_data_of(bytes: Seq<u8>) -> Option<(Seq<u8>, Seq<u8>, Seq<u8>, bool)>;

/// Relies on serde_json::from_slice and serde_json::Value's accessors:
/// parsing either yields the document's `type`, `challenge` and `origin`
/// strings (with `crossOrigin` defaulting to false) or fails, as a function
/// of the input bytes alone.
#[verifier::external_body]
pub(crate) fn parse_client_data(bytes: &[u8]) -> (r: Option<ClientData>)
    ensures
        r matches Some(cd) ==> client_data_of(bytes@) == Some(
            (cd.ty@, cd.challenge@, cd.origin@, cd.cross_origin),
        ),
        r is None ==> client_data_of(bytes@) is None,
{
    let v: serde_json::Value = serde_json::from_slice(bytes).ok()?;
    let ty = v.get("type")?.as_str()?.as_bytes().to_vec();
    let challenge = v.get("challenge")?.as_str()?.as_bytes().to_vec();
    let origin = v.get("origin")?.as_str()?.as_bytes().to_vec();
    let cross_origin = match v.get("crossOrigin") {
        Some(c) => c.as_bool()?,
        None => false,
    };
    Some(ClientData { ty, challenge, origin, cross_origin })
}

/// The domain of an origin URL (UTF-8 bytes), or `None` when the origin is
/// not a URL with a domain host.
pub uninterp spec fn domain_of(origin: Seq<u8>) -> Option<Seq<u8>>;

/// Relies on url::Url::parse and url::Url::domain.
#[verifier::external_body]
pub(crate) fn origin_domain(origin: &[u8]) -> (r: Option<Vec<u8>>)
    ensures
        r matches Some(d) ==> domain_of(origin@) == Some(d@),
        r is None ==> domain_of(origin@) is None,
{
    let s = core::str::from_utf8(origin).ok()?;
    let url = url::Url::parse(s).ok()?;
    Some(url.domain()?.as_bytes().to_vec())
}

/// Byte length that the CBOR value at the head of `bytes` occupies, when
/// that value is a valid COSE key (the length is not stored explicitly in
/// authenticator data); `None` when the head is not one decodable CBOR
/// value that is a COSE key. Bytes after the value — the flag-gated
/// extensions block — do not disturb the measurement.
pub uninterp spec fn cose_key_len_of(bytes: Seq<u8>) -> Option<int>;

/// Relies on coset's re-exported CBOR reader (ciborium::de::from_reader),
/// which consumes exactly one value and advances the input slice past it,
/// and on coset::AsCborValue::from_cbor_value to validate that value as a
/// COSE key: both are functions of the input bytes alone.
#[verifier::external_body]
pub(crate) fn cose_key_consumed_len(bytes: &[u8]) -> (r: Option<usize>)
    ensures
        r matches Some(n) ==> cose_key_len_of(bytes@) == Some(n as int),
        r is None ==> cose_key_len_of(bytes@) is None,
{
    let mut remaining: &[u8] = bytes;
    let value: coset::cbor::value::Value = coset::cbor::de::from_reader(&mut remaining).ok()?;
    let consumed = bytes.len() - remaining.len();
    let _key = coset::CoseKey::from_cbor_value(value).ok()?;
    Some(consumed)
}

/// Whether `bytes` decode as one CBOR value (the flag-gated extensions
/// block).
pub uninterp spec fn cbor_value_ok(bytes: Seq<u8>) -> bool;

/// Relies on coset's re-exported CBOR reader (ciborium), through
/// coset::CborSerializable::from_slice for ciborium::Value.
#[verifier::external_body]
pub(crate) fn cbor_value_decodes(bytes: &[u8]) -> (r: bool)
    ensures
        r == cbor_value_ok(bytes@),
{
    coset::cbor::value::Value::from_slice(bytes).is_ok()
}

} // verus!
