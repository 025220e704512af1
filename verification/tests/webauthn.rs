//! WebAuthn: binary parsing, attestation and assertion validation, and the
//! anti-replay credential record.

use base64::Engine;
use coset::CborSerializable;
use p256::ecdsa::signature::Signer;
use p256::pkcs8::EncodePublicKey;
use sha2::Digest;

use pass_authn::assertion::Assertion;
use pass_authn::assertion::AssertionMeta;
use pass_authn::attestation::Attestation;
use pass_authn::attestation::AttestationMeta;
use pass_authn::authenticator_data::parse_authenticator_data;
use pass_authn::capability::DeviceChallengeResponse;
use pass_authn::capability::UserChallengeResponse;
use pass_authn::capability::VerifyCredential;
use pass_authn::challenger::generate;
use pass_authn::client_data::find_challenge_from_client_data;
use pass_authn::credential::Credential;
use pass_authn::credential::CredentialRecord;
use pass_authn::errors::ParseError;
use pass_authn::errors::RejectReason;
use pass_authn::pipeline::authenticate_webauthn;
use pass_authn::pipeline::authorize_authentication;
use pass_authn::pipeline::authorize_registration;
use pass_authn::pipeline::register_webauthn_device;

const DOMAIN: &str = "pass-web.pass.int";
const ORIGIN: &str = "https://pass-web.pass.int";
const UP: u8 = 0x01;
const UV: u8 = 0x04;
const BE: u8 = 0x08;
const BS: u8 = 0x10;
const AT: u8 = 0x40;
const ED: u8 = 0x80;

fn id32(name: &str) -> [u8; 32] {
    let mut id = [0u8; 32];
    id[..name.len()].copy_from_slice(name.as_bytes());
    id
}

fn rp_id_hash() -> [u8; 32] {
    sha2::Sha256::digest(DOMAIN.as_bytes()).into()
}

fn client_data(ty: &str, challenge: &[u8; 32], origin: &str) -> Vec<u8> {
    let encoded = base64::engine::general_purpose::URL_SAFE_NO_PAD.encode(challenge);
    format!(
        r#"{{"type":"{ty}","challenge":"{encoded}","origin":"{origin}","crossOrigin":false}}"#
    )
    .into_bytes()
}

fn authenticator_data(flags: u8, sign_count: u32) -> Vec<u8> {
    let mut out = rp_id_hash().to_vec();
    out.push(flags);
    out.extend_from_slice(&sign_count.to_be_bytes());
    out
}

fn keypair(seed: u8) -> (p256::ecdsa::SigningKey, [u8; 91]) {
    let signing_key =
        p256::ecdsa::SigningKey::from_slice(&[seed; 32]).expect("seed is a valid scalar");
    let der = signing_key
        .verifying_key()
        .to_public_key_der()
        .expect("a P-256 key encodes as SubjectPublicKeyInfo");
    let mut public_key = [0u8; 91];
    public_key.copy_from_slice(der.as_bytes());
    (signing_key, public_key)
}

fn sign_assertion(key: &p256::ecdsa::SigningKey, ad: &[u8], cd: &[u8]) -> Vec<u8> {
    let mut message = ad.to_vec();
    message.extend_from_slice(&sha2::Sha256::digest(cd));
    let signature: p256::ecdsa::Signature = key.sign(&message);
    signature.to_der().as_bytes().to_vec()
}

fn attestation(context: u64, binding: &[u8], public_key: [u8; 91]) -> Attestation {
    let challenge = generate(context, binding);
    Attestation {
        meta: AttestationMeta {
            authority_id: id32("pass_web"),
            device_id: id32("device"),
            context,
        },
        authenticator_data: authenticator_data(UP | UV, 0),
        client_data: client_data("webauthn.create", &challenge, ORIGIN),
        public_key,
    }
}

fn assertion(
    context: u64,
    binding: &[u8],
    key: &p256::ecdsa::SigningKey,
    flags: u8,
    sign_count: u32,
) -> Assertion {
    let challenge = generate(context, binding);
    let ad = authenticator_data(flags, sign_count);
    let cd = client_data("webauthn.get", &challenge, ORIGIN);
    let signature = sign_assertion(key, &ad, &cd);
    Assertion {
        meta: AssertionMeta {
            authority_id: id32("pass_web"),
            user_id: id32("the_user"),
            context,
        },
        authenticator_data: ad,
        client_data: cd,
        signature,
    }
}

#[test]
fn tests_registration_fails_if_attestation_is_invalid() {
    let (_, public_key) = keypair(11);
    let mut attestation = attestation(1, &[], public_key);

    // Alters "challenge", so this will fail
    let c_data = String::from_utf8(attestation.client_data)
        .map(|client_data| client_data.replace("challenge", "chellang").as_bytes().to_vec())
        .expect("`client_data` is a buffer representation of a utf-8 encoded json");
    attestation.client_data = c_data;

    assert!(authorize_registration(&attestation, 1, &[]).is_none());
    assert!(register_webauthn_device(&attestation, 1, &[]).is_err());
}

#[test]
fn tests_registration_works_if_attestation_is_valid() {
    let (_, public_key) = keypair(12);
    let attestation = attestation(1, &[], public_key);
    assert!(authorize_registration(&attestation, 1, &[]).is_some());
    let record = register_webauthn_device(&attestation, 1, &[]).expect("attestation is valid");
    assert_eq!(record.device_id, id32("device"));
    assert_eq!(record.sign_count, 0);
    assert!(!record.backup_eligible);
    assert!(!record.backup_state);
}

#[test]
fn tests_authentication_fails_if_credentials_are_invalid() {
    let (key, public_key) = keypair(13);
    let attestation = attestation(2, &[], public_key);
    let mut record = register_webauthn_device(&attestation, 2, &[]).expect("attestation is valid");

    // The assertion answers the bare challenge, not the one bound to the
    // pending action.
    let action_binding = [9u8; 32];
    let assertion = assertion(2, &[], &key, UP, 1);
    let before = record;
    assert!(authorize_authentication(&mut record, &assertion, 2, &action_binding).is_none());
    assert_eq!(record, before);
}

#[test]
fn tests_authentication_works_if_credentials_are_valid() {
    let (key, public_key) = keypair(14);
    let attestation = attestation(2, &[], public_key);
    let mut record = register_webauthn_device(&attestation, 2, &[]).expect("attestation is valid");

    let action_binding = [9u8; 32];
    let assertion = assertion(2, &action_binding, &key, UP, 1);
    assert!(authorize_authentication(&mut record, &assertion, 2, &action_binding).is_some());
    assert_eq!(record.sign_count, 1);
}

#[test]
fn authentication_works_when_sing_count_changes() {
    let (key, public_key) = keypair(15);
    let attestation = attestation(3, &[], public_key);
    let mut record = register_webauthn_device(&attestation, 3, &[]).expect("attestation is valid");

    let action_binding = [9u8; 32];
    let first_assertion = assertion(3, &action_binding, &key, UP, 1);
    assert!(
        authorize_authentication(&mut record, &first_assertion, 3, &action_binding).is_some()
    );
    assert_eq!(record.sign_count, 1);

    let second_assertion = assertion(3, &action_binding, &key, UP, 2);
    // Asserts that sign count changes
    assert_eq!(second_assertion.authenticator_data[33..37], [0, 0, 0, 2]);
    assert!(
        authorize_authentication(&mut record, &second_assertion, 3, &action_binding).is_some()
    );
    assert_eq!(record.sign_count, 2);
}

#[test]
fn truncated_buffer_is_rejected_exactly_at_the_header_bound() {
    // 36 bytes: one short of the required header.
    let short = vec![0u8; 36];
    assert_eq!(parse_authenticator_data(&short), Err(ParseError::Truncated));

    // Exactly 37 bytes with AT unset parses, with no attested block.
    let ad = authenticator_data(UP, 7);
    assert_eq!(ad.len(), 37);
    let parsed = parse_authenticator_data(&ad).expect("a 37-byte header parses");
    assert_eq!(parsed.rp_id_hash, rp_id_hash());
    assert_eq!(parsed.flags, UP);
    assert_eq!(parsed.sign_count, 7);
    assert!(parsed.attested_credential_data.is_none());
}

#[test]
fn attested_credential_block_is_parsed() {
    let cose_key = coset::CoseKeyBuilder::new_ec2_pub_key(
        coset::iana::EllipticCurve::P_256,
        vec![1u8; 32],
        vec![2u8; 32],
    )
    .build()
    .to_vec()
    .expect("the key encodes");

    let credential_id = b"credential-0001".to_vec();
    let mut ad = authenticator_data(UP | UV | AT, 5);
    ad.extend_from_slice(&[0xAAu8; 16]);
    ad.extend_from_slice(&(credential_id.len() as u16).to_be_bytes());
    ad.extend_from_slice(&credential_id);
    ad.extend_from_slice(&cose_key);

    let parsed = parse_authenticator_data(&ad).expect("the attested block parses");
    let attested = parsed.attested_credential_data.expect("AT is set");
    assert_eq!(attested.aaguid, [0xAAu8; 16]);
    assert_eq!(attested.credential_id, credential_id);
    assert_eq!(attested.credential_public_key, cose_key);

    // Truncating inside the credential id is detected.
    let cut = &ad[..55 + 3];
    assert_eq!(parse_authenticator_data(cut), Err(ParseError::Truncated));

    // Garbage in place of the COSE key is a CBOR failure.
    let mut garbled = authenticator_data(UP | UV | AT, 5);
    garbled.extend_from_slice(&[0xAAu8; 16]);
    garbled.extend_from_slice(&2u16.to_be_bytes());
    garbled.extend_from_slice(&[1, 2]);
    garbled.extend_from_slice(&[0xFF, 0xFF, 0xFF]);
    assert_eq!(parse_authenticator_data(&garbled), Err(ParseError::MalformedCbor));
}

#[test]
fn attested_block_and_extensions_can_stand_together() {
    let cose_key = coset::CoseKeyBuilder::new_ec2_pub_key(
        coset::iana::EllipticCurve::P_256,
        vec![3u8; 32],
        vec![4u8; 32],
    )
    .build()
    .to_vec()
    .expect("the key encodes");

    let credential_id = b"credential-0002".to_vec();
    let mut ad = authenticator_data(UP | UV | AT | ED, 9);
    ad.extend_from_slice(&[0xBBu8; 16]);
    ad.extend_from_slice(&(credential_id.len() as u16).to_be_bytes());
    ad.extend_from_slice(&credential_id);
    ad.extend_from_slice(&cose_key);
    // Extensions: an empty CBOR map following the COSE key.
    let mut with_ext = ad.clone();
    with_ext.push(0xA0);

    let parsed = parse_authenticator_data(&with_ext).expect("AT and ED together parse");
    let attested = parsed.attested_credential_data.expect("AT is set");
    assert_eq!(attested.credential_id, credential_id);
    assert_eq!(attested.credential_public_key, cose_key);

    // With ED set but no extensions bytes after the key, CBOR decoding fails.
    assert_eq!(parse_authenticator_data(&ad), Err(ParseError::MalformedCbor));

    // Undecodable extensions after the key fail the same way.
    let mut bad_ext = ad.clone();
    bad_ext.push(0xFF);
    assert_eq!(parse_authenticator_data(&bad_ext), Err(ParseError::MalformedCbor));
}

#[test]
fn cose_key_length_is_measured_as_consumed_bytes() {
    // Re-encode the canonical key's first label (1, the key type) in the
    // longer one-byte-argument form: the value is unchanged, the encoding
    // one byte longer, so the consumed length must follow the bytes in the
    // buffer, not a canonical re-encoding.
    let canonical = coset::CoseKeyBuilder::new_ec2_pub_key(
        coset::iana::EllipticCurve::P_256,
        vec![5u8; 32],
        vec![6u8; 32],
    )
    .build()
    .to_vec()
    .expect("the key encodes");
    assert_eq!(canonical[1], 0x01);
    let mut noncanonical = canonical.clone();
    noncanonical.splice(1..2, [0x18, 0x01]);

    let credential_id = b"credential-0003".to_vec();
    let mut ad = authenticator_data(UP | UV | AT | ED, 9);
    ad.extend_from_slice(&[0xCCu8; 16]);
    ad.extend_from_slice(&(credential_id.len() as u16).to_be_bytes());
    ad.extend_from_slice(&credential_id);
    ad.extend_from_slice(&noncanonical);
    ad.push(0xA0);

    let parsed = parse_authenticator_data(&ad).expect("the longer encoding parses");
    let attested = parsed.attested_credential_data.expect("AT is set");
    assert_eq!(attested.credential_public_key, noncanonical);
}

#[test]
fn extensions_block_is_validated() {
    // A lone ED block holding an empty CBOR map parses.
    let mut ad = authenticator_data(UP | ED, 1);
    ad.push(0xA0);
    assert!(parse_authenticator_data(&ad).is_ok());

    // An undecodable extensions block is a CBOR failure.
    let mut bad = authenticator_data(UP | ED, 1);
    bad.extend_from_slice(&[0xFF, 0x00]);
    assert_eq!(parse_authenticator_data(&bad), Err(ParseError::MalformedCbor));

    // With ED set and nothing after the header, decoding fails too.
    let empty_ext = authenticator_data(UP | ED, 1);
    assert_eq!(parse_authenticator_data(&empty_ext), Err(ParseError::MalformedCbor));
}

#[test]
fn replay_defense_follows_the_counter_rule() {
    let (key, public_key) = keypair(17);
    let mut record = CredentialRecord {
        device_id: id32("device"),
        public_key,
        sign_count: 5,
        backup_eligible: false,
        backup_state: false,
    };
    let binding = [3u8; 32];

    // Equal count: rejected, state untouched.
    let stale = assertion(4, &binding, &key, UP, 5);
    let before = record;
    assert_eq!(
        authenticate_webauthn(&mut record, &stale, 4, &binding),
        Err(RejectReason::ReplayDetected)
    );
    assert_eq!(record, before);

    // Lower counts: rejected.
    for count in 1..5u32 {
        let stale = assertion(4, &binding, &key, UP, count);
        assert_eq!(
            authenticate_webauthn(&mut record, &stale, 4, &binding),
            Err(RejectReason::ReplayDetected)
        );
        assert_eq!(record.sign_count, 5);
    }

    // Strictly greater: accepted, and the stored counter moves to 6.
    let fresh = assertion(4, &binding, &key, UP, 6);
    assert_eq!(authenticate_webauthn(&mut record, &fresh, 4, &binding), Ok(()));
    assert_eq!(record.sign_count, 6);

    // Zero is the no-counter sentinel: always accepted, whatever is stored.
    let no_counter = assertion(4, &binding, &key, UP, 0);
    assert_eq!(authenticate_webauthn(&mut record, &no_counter, 4, &binding), Ok(()));
    assert_eq!(record.sign_count, 0);
}

#[test]
fn backup_consistency_is_enforced_at_registration() {
    let (_, public_key) = keypair(18);
    let mut attestation = attestation(1, &[], public_key);
    // backup_state without backup_eligible breaks flag policy.
    attestation.authenticator_data = authenticator_data(UP | UV | BS, 0);
    assert_eq!(attestation.validate(), Err(RejectReason::FlagPolicyViolation));
    assert!(register_webauthn_device(&attestation, 1, &[]).is_err());

    // Both flags set is consistent and accepted.
    attestation.authenticator_data = authenticator_data(UP | UV | BE | BS, 0);
    let record = register_webauthn_device(&attestation, 1, &[]).expect("flags are consistent");
    assert!(record.backup_eligible);
    assert!(record.backup_state);
}

#[test]
fn backup_flags_are_checked_on_every_assertion() {
    let (key, public_key) = keypair(19);
    let mut record = CredentialRecord {
        device_id: id32("device"),
        public_key,
        sign_count: 0,
        backup_eligible: false,
        backup_state: false,
    };
    let binding = [3u8; 32];

    // Eligibility must not change after registration.
    let flipped = assertion(4, &binding, &key, UP | BE, 1);
    assert_eq!(
        authenticate_webauthn(&mut record, &flipped, 4, &binding),
        Err(RejectReason::FlagPolicyViolation)
    );

    // Backup state without eligibility stays inconsistent.
    let inconsistent = assertion(4, &binding, &key, UP | BS, 1);
    assert_eq!(
        authenticate_webauthn(&mut record, &inconsistent, 4, &binding),
        Err(RejectReason::FlagPolicyViolation)
    );
    assert_eq!(record.sign_count, 0);
    assert!(!record.backup_state);
}

#[test]
fn end_to_end_webauthn() {
    let (key, public_key) = keypair(20);
    let attestation = attestation(1, &[], public_key);
    assert_eq!(attestation.used_challenge(), (1, generate(1, &[])));
    assert!(attestation.is_valid());
    let mut record = register_webauthn_device(&attestation, 1, &[]).expect("registration passes");

    // An assertion carrying the registration type string fails with a type
    // mismatch.
    let binding = [3u8; 32];
    let challenge = generate(1, &binding);
    let ad = authenticator_data(UP, 1);
    let cd = client_data("webauthn.create", &challenge, ORIGIN);
    let signature = sign_assertion(&key, &ad, &cd);
    let wrong_type = Assertion {
        meta: AssertionMeta {
            authority_id: id32("pass_web"),
            user_id: id32("the_user"),
            context: 1,
        },
        authenticator_data: ad,
        client_data: cd,
        signature,
    };
    assert_eq!(wrong_type.validate(), Err(RejectReason::TypeMismatch));
    assert_eq!(
        authenticate_webauthn(&mut record, &wrong_type, 1, &binding),
        Err(RejectReason::TypeMismatch)
    );

    // The same credential with the right type authenticates.
    let good = assertion(1, &binding, &key, UP, 1);
    assert!(good.is_valid());
    assert_eq!(good.user_id(), id32("the_user"));
    assert_eq!(authenticate_webauthn(&mut record, &good, 1, &binding), Ok(()));
}

#[test]
fn every_rejection_reason_is_reachable() {
    let (key, public_key) = keypair(21);
    let binding = [3u8; 32];
    let mut record = CredentialRecord {
        device_id: id32("device"),
        public_key,
        sign_count: 0,
        backup_eligible: false,
        backup_state: false,
    };

    // Truncated authenticator data.
    let mut a = assertion(4, &binding, &key, UP, 1);
    a.authenticator_data.truncate(36);
    assert_eq!(
        authenticate_webauthn(&mut record, &a, 4, &binding),
        Err(RejectReason::Truncated)
    );

    // Malformed JSON client data.
    let mut a = assertion(4, &binding, &key, UP, 1);
    a.client_data = b"not json".to_vec();
    assert_eq!(
        authenticate_webauthn(&mut record, &a, 4, &binding),
        Err(RejectReason::ChallengeMismatch)
    );
    assert_eq!(a.validate(), Err(RejectReason::MalformedJsonOrUtf8));

    // Stale challenge.
    let a = assertion(4, &[], &key, UP, 1);
    assert_eq!(
        authenticate_webauthn(&mut record, &a, 4, &binding),
        Err(RejectReason::ChallengeMismatch)
    );

    // Broken signature.
    let mut a = assertion(4, &binding, &key, UP, 1);
    let last = a.signature.len() - 1;
    a.signature[last] ^= 0x01;
    assert_eq!(
        authenticate_webauthn(&mut record, &a, 4, &binding),
        Err(RejectReason::SignatureInvalid)
    );

    // Wrong origin in an attestation.
    let challenge = generate(1, &[]);
    let mut att = attestation(1, &[], public_key);
    att.client_data = client_data("webauthn.create", &challenge, "https://other.example");
    assert_eq!(att.validate(), Err(RejectReason::OriginMismatch));

    // An origin without a domain host.
    att.client_data = client_data("webauthn.create", &challenge, "https://127.0.0.1");
    assert_eq!(att.validate(), Err(RejectReason::OriginMismatch));

    // User presence and verification are both required at registration.
    let mut att = attestation(1, &[], public_key);
    att.authenticator_data = authenticator_data(UV, 0);
    assert_eq!(att.validate(), Err(RejectReason::FlagPolicyViolation));
    att.authenticator_data = authenticator_data(UP, 0);
    assert_eq!(att.validate(), Err(RejectReason::FlagPolicyViolation));
}

#[test]
fn challenge_extraction_decodes_the_client_data() {
    let challenge = generate(9, &[1, 2, 3]);
    let cd = client_data("webauthn.get", &challenge, ORIGIN);
    assert_eq!(find_challenge_from_client_data(cd), Some(challenge));

    // A challenge field that is not base64url yields nothing.
    let bad = format!(
        r#"{{"type":"webauthn.get","challenge":"!!!not-base64!!!","origin":"{ORIGIN}"}}"#
    );
    assert_eq!(find_challenge_from_client_data(bad.into_bytes()), None);

    // A decoded challenge shorter than 32 bytes yields nothing.
    let short = format!(
        r#"{{"type":"webauthn.get","challenge":"AAAA","origin":"{ORIGIN}"}}"#
    );
    assert_eq!(find_challenge_from_client_data(short.into_bytes()), None);
}

#[test]
fn challenge_decoding_failure_yields_the_zero_challenge() {
    let (_, public_key) = keypair(23);
    let mut att = attestation(1, &[], public_key);
    att.client_data = b"{}".to_vec();
    assert_eq!(att.challenge(), [0u8; 32]);

    // A short challenge field falls back to zeroes as well.
    att.client_data =
        format!(r#"{{"type":"webauthn.create","challenge":"AAAA","origin":"{ORIGIN}"}}"#)
            .into_bytes();
    assert_eq!(att.challenge(), [0u8; 32]);
}

#[test]
fn stateless_credential_checks_the_signature_alone() {
    let (key, public_key) = keypair(22);
    let attestation = attestation(1, &[], public_key);
    let mut credential = Credential::from(attestation);
    assert_eq!(credential.device_id, id32("device"));

    let binding = [3u8; 32];
    let good = assertion(1, &binding, &key, UP, 1);
    assert!(credential.verify(&good).is_some());

    let mut bad = good.clone();
    bad.client_data = client_data("webauthn.get", &generate(2, &binding), ORIGIN);
    assert!(credential.verify(&bad).is_none());
}
