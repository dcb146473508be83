use openssl::ec::EcGroup;
use openssl::ec::EcKey;
use openssl::nid::Nid;
use openssl::pkey::PKey;
use openssl::pkey::Private;
use openssl::rsa::Rsa;
use sev_crypto::Digest;
use sev_crypto::Error;
use sev_crypto::KeyFamily;
use sev_crypto::PrivateKey;
use sev_crypto::PublicKey;
use sev_crypto::Signature;
use sev_crypto::Usage;

fn rsa_handle(bits: u32) -> PKey<Private> {
    let rsa = Rsa::generate(bits).unwrap();
    PKey::from_rsa(rsa).unwrap()
}

fn ec_p384_handle() -> PKey<Private> {
    let group = EcGroup::from_curve_name(Nid::SECP384R1).unwrap();
    let ec = EcKey::generate(&group).unwrap();
    PKey::from_ec_key(ec).unwrap()
}

fn public_of(handle: &PKey<Private>, id: Option<u128>, hash: Digest, usage: Usage) -> PublicKey {
    let der = handle.public_key_to_der().unwrap();
    let pub_handle = PKey::public_key_from_der(&der).unwrap();
    PublicKey::from_handle(pub_handle, id, hash, usage).unwrap()
}

fn pair_of(
    handle: &PKey<Private>,
    id: Option<u128>,
    hash: Digest,
    usage: Usage,
) -> (PrivateKey, PublicKey) {
    let pubkey = public_of(handle, id, hash, usage);
    let der = handle.private_key_to_der().unwrap();
    let prv = PrivateKey::decode(&der, &pubkey).unwrap();
    (prv, public_of(handle, id, hash, usage))
}

#[test]
fn decode_encode_round_trip() {
    let handle = rsa_handle(2048);
    let pubkey = public_of(&handle, Some(7), Digest::Sha256, Usage::Oca);
    let der = handle.private_key_to_der().unwrap();
    let prv = PrivateKey::decode(&der, &pubkey).unwrap();
    assert_eq!(prv.usage, Usage::Oca);
    assert_eq!(prv.hash, Digest::Sha256);
    assert_eq!(prv.id, Some(7));
    assert_eq!(prv.family, KeyFamily::Rsa);
    let encoded = prv.encode().unwrap();
    assert_eq!(encoded, der);
    let again = PrivateKey::decode(&encoded, &pubkey).unwrap();
    assert_eq!(again.encode().unwrap(), der);
}

#[test]
fn decode_wrong_public_fails() {
    let handle = rsa_handle(2048);
    let other = rsa_handle(2048);
    let pubkey = public_of(&other, None, Digest::Sha256, Usage::Oca);
    let der = handle.private_key_to_der().unwrap();
    let err = match PrivateKey::decode(&der, &pubkey) {
        Err(e) => e,
        Ok(_) => panic!("decode accepted a mismatched public key"),
    };
    assert_eq!(err, Error::InvalidData);
}

#[test]
fn decode_malformed_bytes_fails() {
    let handle = rsa_handle(2048);
    let pubkey = public_of(&handle, None, Digest::Sha256, Usage::Oca);
    let err = match PrivateKey::decode(&[0u8, 1, 2, 3, 4], &pubkey) {
        Err(e) => e,
        Ok(_) => panic!("decode accepted malformed bytes"),
    };
    assert_eq!(err, Error::InvalidData);
}

#[test]
fn sign_verify_round_trip_rsa() {
    let handle = rsa_handle(2048);
    let (prv, pubkey) = pair_of(&handle, Some(11), Digest::Sha256, Usage::Ark);
    let sig = prv.sign(b"a message").unwrap();
    assert_eq!(sig.usage, Usage::Ark);
    assert_eq!(sig.kind, KeyFamily::Rsa);
    assert_eq!(sig.hash, Digest::Sha256);
    assert_eq!(sig.id, Some(11));
    assert!(pubkey.verify(b"a message", &sig).is_ok());
}

#[test]
fn sign_verify_round_trip_ec() {
    let handle = ec_p384_handle();
    let (prv, pubkey) = pair_of(&handle, None, Digest::Sha384, Usage::Cek);
    let sig = prv.sign(b"another message").unwrap();
    assert!(pubkey.verify(b"another message", &sig).is_ok());
}

#[test]
fn usage_mismatch_is_invalid_input() {
    let handle = rsa_handle(2048);
    let (prv, _) = pair_of(&handle, Some(3), Digest::Sha256, Usage::Pek);
    let sig = prv.sign(b"payload").unwrap();
    let other_usage = public_of(&handle, Some(3), Digest::Sha256, Usage::Oca);
    assert_eq!(other_usage.verify(b"payload", &sig).unwrap_err(), Error::InvalidInput);
}

#[test]
fn digest_mismatch_is_invalid_input() {
    let handle = rsa_handle(2048);
    let (prv, pubkey) = pair_of(&handle, None, Digest::Sha256, Usage::Pek);
    let sig = prv.sign(b"payload").unwrap();
    let altered = Signature {
        id: sig.id,
        sig: sig.sig.clone(),
        kind: sig.kind,
        hash: Digest::Sha384,
        usage: sig.usage,
    };
    assert_eq!(pubkey.verify(b"payload", &altered).unwrap_err(), Error::InvalidInput);
}

#[test]
fn family_mismatch_is_invalid_input() {
    let handle = rsa_handle(2048);
    let (prv, pubkey) = pair_of(&handle, None, Digest::Sha256, Usage::Pek);
    let sig = prv.sign(b"payload").unwrap();
    let altered = Signature {
        id: sig.id,
        sig: sig.sig.clone(),
        kind: KeyFamily::Ec,
        hash: sig.hash,
        usage: sig.usage,
    };
    assert_eq!(pubkey.verify(b"payload", &altered).unwrap_err(), Error::InvalidInput);
}

#[test]
fn signer_identity_mismatch_is_invalid_input() {
    let handle = rsa_handle(2048);
    let (prv, pubkey) = pair_of(&handle, Some(21), Digest::Sha256, Usage::Pek);
    let sig = prv.sign(b"payload").unwrap();
    let altered = Signature {
        id: Some(22),
        sig: sig.sig.clone(),
        kind: sig.kind,
        hash: sig.hash,
        usage: sig.usage,
    };
    assert_eq!(pubkey.verify(b"payload", &altered).unwrap_err(), Error::InvalidInput);
}

#[test]
fn absent_signer_identity_is_accepted() {
    let handle = rsa_handle(2048);
    let (prv, pubkey) = pair_of(&handle, Some(21), Digest::Sha256, Usage::Pek);
    let sig = prv.sign(b"payload").unwrap();
    let anonymous = Signature {
        id: None,
        sig: sig.sig.clone(),
        kind: sig.kind,
        hash: sig.hash,
        usage: sig.usage,
    };
    assert!(pubkey.verify(b"payload", &anonymous).is_ok());
}

#[test]
fn tampered_signature_bytes_fail() {
    let handle = ec_p384_handle();
    let (prv, pubkey) = pair_of(&handle, None, Digest::Sha384, Usage::Oca);
    let sig = prv.sign(b"tamper target").unwrap();
    assert!(pubkey.verify(b"tamper target", &sig).is_ok());
    for i in 0..sig.sig.len() {
        let mut raw = sig.sig.clone();
        raw[i] ^= 1;
        let mutated = Signature {
            id: sig.id,
            sig: raw,
            kind: sig.kind,
            hash: sig.hash,
            usage: sig.usage,
        };
        assert_eq!(
            pubkey.verify(b"tamper target", &mutated).unwrap_err(),
            Error::CryptoFailure
        );
    }
}

#[test]
fn rsa_3072_endpoint_signing_scenario() {
    let handle = rsa_handle(3072);
    let (prv, pubkey) = pair_of(&handle, None, Digest::Sha384, Usage::Pek);
    assert_eq!(pubkey.algo_string().unwrap(), "R3072 R384");
    let sig = prv.sign(b"hello").unwrap();
    assert!(pubkey.verify(b"hello", &sig).is_ok());
    assert_eq!(pubkey.verify(b"hellp", &sig).unwrap_err(), Error::CryptoFailure);
}

#[test]
fn ec_key_encipherment_descriptor() {
    let handle = ec_p384_handle();
    let pubkey = public_of(&handle, None, Digest::Sha384, Usage::Pdh);
    assert_eq!(pubkey.algo_string().unwrap(), "EP384 D384");
}

#[test]
fn ec_signing_descriptor() {
    let handle = ec_p384_handle();
    let pubkey = public_of(&handle, None, Digest::Sha256, Usage::Ask);
    assert_eq!(pubkey.algo_string().unwrap(), "EP384 E256");
}

#[test]
fn rsa_key_encipherment_has_no_descriptor() {
    let handle = rsa_handle(2048);
    let pubkey = public_of(&handle, None, Digest::Sha256, Usage::Pdh);
    assert_eq!(pubkey.algo_string().unwrap_err(), Error::CryptoFailure);
}

#[test]
fn unsupported_key_family_is_rejected() {
    let handle = PKey::generate_ed25519().unwrap();
    let der = handle.public_key_to_der().unwrap();
    let pub_handle = PKey::public_key_from_der(&der).unwrap();
    let err = match PublicKey::from_handle(pub_handle, None, Digest::Sha256, Usage::Oca) {
        Err(e) => e,
        Ok(_) => panic!("an Ed25519 key has no supported family"),
    };
    assert_eq!(err, Error::InvalidData);
}

#[test]
fn packaging_carries_key_metadata() {
    let handle = ec_p384_handle();
    let (prv, _) = pair_of(&handle, Some(5), Digest::Sha512, Usage::Ask);
    let s = prv.package_signature(vec![9, 8, 7]);
    assert_eq!(s.sig, vec![9, 8, 7]);
    assert_eq!(s.id, Some(5));
    assert_eq!(s.kind, KeyFamily::Ec);
    assert_eq!(s.hash, Digest::Sha512);
    assert_eq!(s.usage, Usage::Ask);
}

#[test]
fn verdict_follows_backend_outcome() {
    assert!(sev_crypto::keys::verdict(Some(true)).is_ok());
    assert_eq!(sev_crypto::keys::verdict(Some(false)).unwrap_err(), Error::CryptoFailure);
    assert_eq!(sev_crypto::keys::verdict(None).unwrap_err(), Error::CryptoFailure);
}
