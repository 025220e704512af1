//! WebAuthn authenticator-data binary parser.
//!
//! Layout: `rp_id_hash[32] | flags[1] | sign_count[4, big-endian]`, then, if
//! the AT flag is set, `aaguid[16] | cred_id_len[2, big-endian] |
//! cred_id[cred_id_len] | COSE_key_cbor`, then, if the ED flag is set, one
//! trailing CBOR value (extensions). The parser is a bounds-checked cursor:
//! a buffer shorter than a declared field's bound fails as `Truncated`, an
//! undecodable CBOR block as `MalformedCbor`, and each flag-gated section's
//! absence is a valid outcome, not an error.

use vstd::prelude::*;

use crate::bytes::array_from_slice;
use crate::bytes::read_be_u16;
use crate::bytes::read_be_u32;
use crate::bytes::spec_be16;
use crate::bytes::spec_be32;
use crate::errors::ParseError;
use crate::webdata::cbor_value_decodes;
use crate::webdata::cbor_value_ok;
use crate::webdata::cose_key_consumed_len;
use crate::webdata::cose_key_len_of;
use vstd::slice::slice_subrange;
use vstd::slice::slice_to_vec;

verus! {

/// The USER_PRESENT bit of the flags byte.
pub open spec fn spec_flag_user_present(flags: u8) -> bool {
    flags & 0x01 != 0
}

/// The USER_VERIFIED bit of the flags byte.
pub open spec fn spec_flag_user_verified(flags: u8) -> bool {
    flags & 0x04 != 0
}

/// The BACKUP_ELIGIBILITY bit of the flags byte.
pub open spec fn spec_flag_backup_eligible(flags: u8) -> bool {
    flags & 0x08 != 0
}

/// The BACKUP_STATE bit of the flags byte.
pub open spec fn spec_flag_backup_state(flags: u8) -> bool {
    flags & 0x10 != 0
}

/// The AT (attested credential data present) bit of the flags byte.
pub open spec fn spec_flag_attested_data(flags: u8) -> bool {
    flags & 0x40 != 0
}

/// The ED (extensions present) bit of the flags byte.
pub open spec fn spec_flag_extensions(flags: u8) -> bool {
    flags & 0x80 != 0
}

/// The attested-credential block carried when the AT flag is set. The COSE
/// public key is kept as the raw bytes it occupied in the buffer.
#[derive(Clone, Debug, PartialEq, Eq)]
pub struct AttestedCredentialData {
    pub aaguid: [u8; 16],
    pub credential_id: Vec<u8>,
    pub credential_public_key: Vec<u8>,
}

/// Mathematical image of [`AttestedCredentialData`].
#[verifier::ext_equal]
pub struct AttestedCredentialDataView {
    pub aaguid: Seq<u8>,
    pub credential_id: Seq<u8>,
    pub credential_public_key: Seq<u8>,
}

impl View for AttestedCredentialData {
    type V = AttestedCredentialDataView;

    open spec fn view(&self) -> AttestedCredentialDataView {
        AttestedCredentialDataView {
            aaguid: self.aaguid@,
            credential_id: self.credential_id@,
            credential_public_key: self.credential_public_key@,
        }
    }
}

/// A parsed authenticator-data buffer. Extensions are validated during
/// parsing and not retained.
#[derive(Clone, Debug, PartialEq, Eq)]
pub struct AuthenticatorData {
    pub rp_id_hash: [u8; 32],
    pub flags: u8,
    pub sign_count: u32,
    pub attested_credential_data: Option<AttestedCredentialData>,
}

/// Mathematical image of [`AuthenticatorData`].
#[verifier::ext_equal]
pub struct AuthenticatorDataView {
    pub rp_id_hash: Seq<u8>,
    pub flags: u8,
    pub sign_count: u32,
    pub attested_credential_data: Option<AttestedCredentialDataView>,
}

impl View for AuthenticatorData {
    type V = AuthenticatorDataView;

    open spec fn view(&self) -> AuthenticatorDataView {
        AuthenticatorDataView {
            rp_id_hash: self.rp_id_hash@,
            flags: self.flags,
            sign_count: self.sign_count,
            attested_credential_data: match self.attested_credential_data {
                Some(acd) => Some(acd@),
                None => None,
            },
        }
    }
}

/// Parse of the attested-credential block: on success, its view and the
/// offset just past it. `bytes` is the whole buffer; the block starts at
/// offset 37.
pub open spec fn spec_parse_attested(bytes: Seq<u8>) -> Result<
    (AttestedCredentialDataView, int),
    ParseError,
> {
    if bytes.len() < 55 {
        Err(ParseError::Truncated)
    } else {
        let id_len = spec_be16(bytes.subrange(53, 55));
        if bytes.len() < 55 + id_len {
            Err(ParseError::Truncated)
        } else {
            match cose_key_len_of(bytes.skip(55 + id_len)) {
                None => Err(ParseError::MalformedCbor),
                Some(n) => if n < 0 || 55 + id_len + n > bytes.len() {
                    Err(ParseError::Truncated)
                } else {
                    Ok(
                        (
                            AttestedCredentialDataView {
                                aaguid: bytes.subrange(37, 53),
                                credential_id: bytes.subrange(55, 55 + id_len),
                                credential_public_key: bytes.subrange(
                                    55 + id_len,
                                    55 + id_len + n,
                                ),
                            },
                            55 + id_len + n,
                        ),
                    )
                },
            }
        }
    }
}

/// Parse of a whole authenticator-data buffer.
pub open spec fn spec_parse_authenticator_data(bytes: Seq<u8>) -> Result<
    AuthenticatorDataView,
    ParseError,
> {
    if bytes.len() < 37 {
        Err(ParseError::Truncated)
    } else {
        let flags = bytes[32];
        if spec_flag_attested_data(flags) {
            match spec_parse_attested(bytes) {
                Err(e) => Err(e),
                Ok((acd, end)) => if spec_flag_extensions(flags) && !cbor_value_ok(
                    bytes.skip(end),
                ) {
                    Err(ParseError::MalformedCbor)
                } else {
                    Ok(
                        AuthenticatorDataView {
                            rp_id_hash: bytes.subrange(0, 32),
                            flags,
                            sign_count: spec_be32(bytes.subrange(33, 37)) as u32,
                            attested_credential_data: Some(acd),
                        },
                    )
                },
            }
        } else {
            if spec_flag_extensions(flags) && !cbor_value_ok(bytes.skip(37)) {
                Err(ParseError::MalformedCbor)
            } else {
                Ok(
                    AuthenticatorDataView {
                        rp_id_hash: bytes.subrange(0, 32),
                        flags,
                        sign_count: spec_be32(bytes.subrange(33, 37)) as u32,
                        attested_credential_data: None,
                    },
                )
            }
        }
    }
}

/// Parses an authenticator-data buffer into its typed structure, with the
/// failure mode of each malformed input.
pub fn parse_authenticator_data(bytes: &[u8]) -> (r: Result<AuthenticatorData, ParseError>)
    ensures
        r matches Ok(ad) ==> spec_parse_authenticator_data(bytes@) matches Ok(v) && ad@ == v,
        r matches Err(e) ==> spec_parse_authenticator_data(bytes@) == Err::<
            AuthenticatorDataView,
            ParseError,
        >(e),
{
    let len: usize = bytes.len();
    if len < 37 {
        return Err(ParseError::Truncated);
    }
    let rp_id_hash: [u8; 32] = array_from_slice::<32>(bytes, 0);
    let flags: u8 = bytes[32];
    let sign_count: u32 = read_be_u32(bytes, 33);
    proof {
        assert(rp_id_hash@ == bytes@.subrange(0, 32));
        assert(sign_count == spec_be32(bytes@.subrange(33, 37)) as u32);
    }
    let mut offset: usize = 37;
    let attested_credential_data: Option<AttestedCredentialData> = if flags & 0x40 != 0 {
        if len < 55 {
            return Err(ParseError::Truncated);
        }
        let aaguid: [u8; 16] = array_from_slice::<16>(bytes, 37);
        let id_len: usize = read_be_u16(bytes, 53) as usize;
        proof {
            assert(id_len == spec_be16(bytes@.subrange(53, 55)));
        }
        if len - 55 < id_len {
            return Err(ParseError::Truncated);
        }
        let credential_id: Vec<u8> = slice_to_vec(slice_subrange(bytes, 55, 55 + id_len));
        let rest = slice_subrange(bytes, 55 + id_len, len);
        proof {
            assert(rest@ =~= bytes@.skip(55 + id_len));
        }
        let n: usize = match cose_key_consumed_len(rest) {
            Some(n) => n,
            None => {
                return Err(ParseError::MalformedCbor);
            },
        };
        if n > len - (55 + id_len) {
            return Err(ParseError::Truncated);
        }
        let credential_public_key: Vec<u8> = slice_to_vec(
            slice_subrange(bytes, 55 + id_len, 55 + id_len + n),
        );
        offset = 55 + id_len + n;
        proof {
            assert(spec_parse_attested(bytes@) matches Ok((v, end))
                && v.aaguid == aaguid@
                && v.credential_id == credential_id@
                && v.credential_public_key == credential_public_key@
                && end == offset as int);
        }
        Some(AttestedCredentialData { aaguid, credential_id, credential_public_key })
    } else {
        None
    };
    if flags & 0x80 != 0 {
        let rest = slice_subrange(bytes, offset, len);
        proof {
            assert(rest@ =~= bytes@.skip(offset as int));
        }
        if !cbor_value_decodes(rest) {
            return Err(ParseError::MalformedCbor);
        }
    }
    let result = AuthenticatorData { rp_id_hash, flags, sign_count, attested_credential_data };
    proof {
        assert(spec_parse_authenticator_data(bytes@) matches Ok(v) && result@ == v);
    }
    Ok(result)
}

} // verus!
