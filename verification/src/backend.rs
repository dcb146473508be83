//! Trusted bridge to the OpenSSL backend.  Verus believes the declarations,
//! names and wrappers here without reading the OpenSSL code behind them; the
//! doc comment of each names the OpenSSL function it relies on.  The
//! uninterpreted spec functions name results that are deterministic in their
//! arguments but far too large to write out (DER grammars, RSA-PSS and ECDSA
//! acceptance); the wrappers' contracts are the only facts stated of them.

use vstd::prelude::*;
use openssl::error::ErrorStack;
use openssl::hash;
use openssl::pkey;
use openssl::rsa;
use openssl::sign;
use crate::algo::Digest;
use crate::algo::KeyFamily;

verus! {

#[verifier::external_type_specification]
#[verifier::external_body]
#[verifier::reject_recursive_types(T)]
pub struct ExPKey<T>(pkey::PKey<T>);

#[verifier::external_type_specification]
#[verifier::external_body]
pub struct ExPublic(pkey::Public);

#[verifier::external_type_specification]
#[verifier::external_body]
pub struct ExPrivate(pkey::Private);

#[verifier::external_type_specification]
#[verifier::external_body]
pub struct ExErrorStack(ErrorStack);

/// Whether `der` is a well-formed DER private key, as OpenSSL's
/// `d2i_AutoPrivateKey` decides it: a function of the bytes alone.
pub uninterp spec fn der_private_ok(der: Seq<u8>) -> bool;

/// The private key that OpenSSL's `d2i_AutoPrivateKey` parses out of `der`
/// (meaningful only where `der_private_ok(der)` holds): parsing is a
/// function of the bytes alone.
pub uninterp spec fn parsed_key_of(der: Seq<u8>) -> pkey::PKey<pkey::Private>;

/// Whether the public component of `prv` equals `key`, as OpenSSL's
/// `EVP_PKEY_cmp` decides it: a function of the two keys' material alone.
pub uninterp spec fn keys_match(prv: pkey::PKey<pkey::Private>, key: pkey::PKey<pkey::Public>) -> bool;

/// Whether OpenSSL's `i2d_PrivateKey` can serialize `key`: a function of
/// the key material alone.
pub uninterp spec fn der_encodable(key: pkey::PKey<pkey::Private>) -> bool;

/// The DER serialization that OpenSSL's `i2d_PrivateKey` produces for `key`
/// (meaningful only where `der_encodable(key)` holds): a function of the
/// key material alone.
pub uninterp spec fn priv_der_of(key: pkey::PKey<pkey::Private>) -> Seq<u8>;

/// The key family behind OpenSSL's `EVP_PKEY_id`: `Rsa` or `Ec` for those
/// two algorithm identifiers, `None` for every other.
pub uninterp spec fn family_name_of(key: pkey::PKey<pkey::Public>) -> Option<KeyFamily>;

/// The RSA modulus length in bytes, as OpenSSL's `RSA_size` reports it:
/// a function of the key material alone.
pub uninterp spec fn rsa_size_of(key: pkey::PKey<pkey::Public>) -> u32;

/// The field degree of the key's curve, as OpenSSL's `EC_GROUP_get_degree`
/// reports it: a function of the key material alone.
pub uninterp spec fn ec_degree_of(key: pkey::PKey<pkey::Public>) -> u32;

/// Whether `sig` is accepted as a signature by `key` over `msg`, digesting
/// with `d`, under PSS padding with digest-length salt when `pss` is set:
/// signature verification is deterministic, a function of exactly these
/// arguments.
pub uninterp spec fn accepts(
    key: pkey::PKey<pkey::Public>,
    d: Digest,
    pss: bool,
    msg: Seq<u8>,
    sig: Seq<u8>,
) -> bool;

/// Relies on OpenSSL's `PKey::private_key_from_der` (d2i_AutoPrivateKey):
/// parsing is a function of the bytes alone, succeeding exactly on
/// well-formed DER private keys.
#[verifier::external_body]
pub(crate) fn private_key_from_der(der: &[u8]) -> (r: Result<
    pkey::PKey<pkey::Private>,
    ErrorStack,
>)
    ensures
        r matches Ok(k) ==> der_private_ok(der@) && k == parsed_key_of(der@),
        r is Err ==> !der_private_ok(der@),
{
    pkey::PKey::private_key_from_der(der)
}

/// Relies on OpenSSL's `PKeyRef::private_key_to_der` (i2d_PrivateKey):
/// serializes the private key to DER, a function of the key material alone.
#[verifier::external_body]
pub(crate) fn private_der(key: &pkey::PKey<pkey::Private>) -> (r: Result<Vec<u8>, ErrorStack>)
    ensures
        r matches Ok(v) ==> der_encodable(*key) && v@ == priv_der_of(*key),
        r is Err ==> !der_encodable(*key),
{
    key.private_key_to_der()
}

/// Relies on OpenSSL's `PKeyRef::public_eq` (EVP_PKEY_cmp): whether the
/// public component of `prv` equals `key`.
#[verifier::external_body]
pub(crate) fn public_matches(prv: &pkey::PKey<pkey::Private>, key: &pkey::PKey<pkey::Public>) -> (r:
    bool)
    ensures
        r == keys_match(*prv, *key),
{
    prv.public_eq(key)
}

/// Relies on OpenSSL's `PKeyRef::id` (EVP_PKEY_id), telling the RSA and EC
/// algorithm identifiers apart; any other identifier yields `None`.
#[verifier::external_body]
pub(crate) fn family_of(key: &pkey::PKey<pkey::Public>) -> (r: Option<KeyFamily>)
    ensures
        r == family_name_of(*key),
{
    if key.id() == pkey::Id::RSA {
        Some(KeyFamily::Rsa)
    } else if key.id() == pkey::Id::EC {
        Some(KeyFamily::Ec)
    } else {
        None
    }
}

/// Relies on OpenSSL's `PKeyRef::rsa` (EVP_PKEY_get1_RSA) and
/// `RsaRef::size` (RSA_size): the RSA modulus length in bytes.
#[verifier::external_body]
pub(crate) fn rsa_modulus_bytes(key: &pkey::PKey<pkey::Public>) -> (r: Result<u32, ErrorStack>)
    ensures
        r matches Ok(n) ==> n == rsa_size_of(*key),
{
    Ok(key.rsa()?.size())
}

/// Relies on OpenSSL's `PKeyRef::ec_key` (EVP_PKEY_get1_EC_KEY),
/// `EcKeyRef::group` and `EcGroupRef::degree` (EC_GROUP_get_degree): the
/// field degree of the key's curve.
#[verifier::external_body]
pub(crate) fn ec_field_degree(key: &pkey::PKey<pkey::Public>) -> (r: Result<u32, ErrorStack>)
    ensures
        r matches Ok(n) ==> n == ec_degree_of(*key),
{
    Ok(key.ec_key()?.group().degree())
}

/// Relies on OpenSSL's `Verifier` pipeline: `Verifier::new`
/// (EVP_DigestVerifyInit) under the digest for `d`, `set_rsa_padding` with
/// `Padding::PKCS1_PSS` and `set_rsa_pss_saltlen` with
/// `RsaPssSaltlen::DIGEST_LENGTH` when `pss` is set, then `Verifier::update`
/// and `Verifier::verify` (EVP_DigestVerifyFinal).  Verification is
/// deterministic — the name `accepts` stands for its outcome — and the
/// pipeline's errors (an allocation failure aside) fall only on inputs,
/// such as a key family `d` cannot serve, that no signature is valid for.
#[verifier::external_body]
pub(crate) fn verify_bytes(
    key: &pkey::PKey<pkey::Public>,
    d: Digest,
    pss: bool,
    msg: &[u8],
    sig: &[u8],
) -> (r: Result<bool, ErrorStack>)
    ensures
        r matches Ok(b) ==> b == accepts(*key, d, pss, msg@, sig@),
        r is Err ==> !accepts(*key, d, pss, msg@, sig@),
{
    let md = match d {
        Digest::Sha256 => hash::MessageDigest::sha256(),
        Digest::Sha384 => hash::MessageDigest::sha384(),
        Digest::Sha512 => hash::MessageDigest::sha512(),
    };
    let mut ver = sign::Verifier::new(md, key)?;
    if pss {
        ver.set_rsa_padding(rsa::Padding::PKCS1_PSS)?;
        ver.set_rsa_pss_saltlen(sign::RsaPssSaltlen::DIGEST_LENGTH)?;
    }
    ver.update(msg)?;
    ver.verify(sig)
}

/// Relies on OpenSSL's `Signer` pipeline: `Signer::new`
/// (EVP_DigestSignInit) under the digest for `d`, `set_rsa_padding` with
/// `Padding::PKCS1_PSS` and `set_rsa_pss_saltlen` with
/// `RsaPssSaltlen::DIGEST_LENGTH` when `pss` is set, then `Signer::update`
/// and `Signer::sign_to_vec` (EVP_DigestSignFinal).  The result depends on
/// chance (the PSS salt, the ECDSA nonce), so no clause can pin it.
#[verifier::external_body]
pub(crate) fn sign_bytes(
    key: &pkey::PKey<pkey::Private>,
    d: Digest,
    pss: bool,
    msg: &[u8],
) -> Result<Vec<u8>, ErrorStack> {
    let md = match d {
        Digest::Sha256 => hash::MessageDigest::sha256(),
        Digest::Sha384 => hash::MessageDigest::sha384(),
        Digest::Sha512 => hash::MessageDigest::sha512(),
    };
    let mut signer = sign::Signer::new(md, key)?;
    if pss {
        signer.set_rsa_padding(rsa::Padding::PKCS1_PSS)?;
        signer.set_rsa_pss_saltlen(sign::RsaPssSaltlen::DIGEST_LENGTH)?;
    }
    signer.update(msg)?;
    signer.sign_to_vec()
}

} // verus!
