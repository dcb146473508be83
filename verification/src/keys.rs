use vstd::prelude::*;
use openssl::pkey;
use crate::algo::Digest;
use crate::algo::KeyFamily;
use crate::backend;
use crate::error::Error;
use crate::text::dec_digits;
use crate::text::push_dec;
use crate::usage::Usage;

verus! {

/// A detached signature: the raw signature bytes plus the metadata needed
/// to decide, before any cryptographic check, whether it applies to a key.
pub struct Signature {
    /// Identity of the signing key, if the signer declared one.
    pub id: Option<u128>,
    /// The raw signature bytes.
    pub sig: Vec<u8>,
    /// Key family the signature was produced with.
    pub kind: KeyFamily,
    /// Digest algorithm the signature was produced with.
    pub hash: Digest,
    /// The purpose the signature was produced for.
    pub usage: Usage,
}

/// A public key: the backend handle plus the metadata this library's rules
/// read (identity, key family, key size, digest algorithm, usage).
pub struct PublicKey {
    /// Numeric identity of the key, if known.
    pub id: Option<u128>,
    /// The backend key handle.
    pub key: pkey::PKey<pkey::Public>,
    /// Algorithm class of the key.
    pub family: KeyFamily,
    /// RSA modulus size in bits, or elliptic-curve field degree.
    pub bits: u64,
    /// Digest algorithm used with this key.
    pub hash: Digest,
    /// The role this key plays.
    pub usage: Usage,
}

/// A private key with the same metadata as the public key it was decoded
/// against.
pub struct PrivateKey {
    /// Numeric identity of the key, if known.
    pub id: Option<u128>,
    /// The backend key handle.
    pub key: pkey::PKey<pkey::Private>,
    /// Algorithm class of the key.
    pub family: KeyFamily,
    /// Digest algorithm used with this key.
    pub hash: Digest,
    /// The role this key plays.
    pub usage: Usage,
}

/// Metadata compatibility of a signature with a public key: usage, key
/// family and digest algorithm must match exactly, and the signature's
/// signer identity, when present, must equal the key's identity.
pub open spec fn sig_matches_key(s: Signature, k: PublicKey) -> bool {
    &&& s.usage == k.usage
    &&& s.kind == k.family
    &&& s.hash == k.hash
    &&& (s.id is None || s.id == k.id)
}

/// The algorithm descriptor for a key with the given metadata, or `None`
/// where the key-family/usage combination has no descriptor format.
pub open spec fn spec_descriptor(family: KeyFamily, bits: u64, hash: Digest, usage: Usage) -> Option<
    Seq<char>,
> {
    if usage.spec_is_signing() && family is Rsa {
        Some(seq!['R'] + dec_digits(bits as nat) + seq![' ', 'R'] + dec_digits(hash.spec_bits() as nat))
    } else if usage.spec_is_signing() && family is Ec {
        Some(seq!['E', 'P'] + dec_digits(bits as nat) + seq![' ', 'E'] + dec_digits(hash.spec_bits() as nat))
    } else if family is Ec {
        Some(seq!['E', 'P'] + dec_digits(bits as nat) + seq![' ', 'D'] + dec_digits(hash.spec_bits() as nat))
    } else {
        None
    }
}

/// Whether the signature's signer identity is absent or equal to the key's.
fn id_matches(sig_id: &Option<u128>, key_id: &Option<u128>) -> (r: bool)
    ensures
        r == (*sig_id is None || *sig_id == *key_id),
{
    match sig_id {
        None => true,
        Some(s) => match key_id {
            Some(k) => *s == *k,
            None => false,
        },
    }
}

/// Maps the backend verifier's outcome to this library's result: success
/// exactly when the backend reported a valid signature, every other
/// outcome a cryptographic failure.
pub fn verdict(outcome: Option<bool>) -> (r: Result<(), Error>)
    ensures
        outcome == Some(true) ==> r == Ok::<(), Error>(()),
        outcome != Some(true) ==> r == Err::<(), Error>(Error::CryptoFailure),
{
    match outcome {
        Some(true) => Ok(()),
        _ => Err(Error::CryptoFailure),
    }
}

impl PublicKey {
    /// Builds a public key record from a backend handle, reading the key
    /// family and size from the handle itself; `id`, `hash` and `usage`
    /// are supplied by the caller and copied onto the record.
    pub fn from_handle(
        key: pkey::PKey<pkey::Public>,
        id: Option<u128>,
        hash: Digest,
        usage: Usage,
    ) -> (r: Result<PublicKey, Error>)
        ensures
            match r {
                Ok(k) => k.id == id && k.hash == hash && k.usage == usage && k.key == key && Some(
                    k.family,
                ) == backend::family_name_of(key) && (k.family is Rsa ==> k.bits == 8
                    * backend::rsa_size_of(key)) && (k.family is Ec ==> k.bits
                    == backend::ec_degree_of(key)),
                Err(e) => e == Error::InvalidData,
            },
            backend::family_name_of(key) is None ==> r == Err::<PublicKey, Error>(
                Error::InvalidData,
            ),
    {
        let family = match backend::family_of(&key) {
            Some(f) => f,
            None => {
                return Err(Error::InvalidData);
            },
        };
        let bits: u64 = match family {
            KeyFamily::Rsa => match backend::rsa_modulus_bytes(&key) {
                Ok(n) => (n as u64) * 8,
                Err(_) => {
                    return Err(Error::InvalidData);
                },
            },
            KeyFamily::Ec => match backend::ec_field_degree(&key) {
                Ok(n) => n as u64,
                Err(_) => {
                    return Err(Error::InvalidData);
                },
            },
        };
        Ok(PublicKey { id, key, family, bits, hash, usage })
    }

    /// The short human-readable algorithm descriptor of this key, for
    /// certificate summaries; fails on a combination with no descriptor.
    pub fn algo_string(&self) -> (r: Result<String, Error>)
        ensures
            match spec_descriptor(self.family, self.bits, self.hash, self.usage) {
                Some(d) => r matches Ok(s) && s@ == d,
                None => r == Err::<String, Error>(Error::CryptoFailure),
            },
    {
        let signing = self.usage.is_signing();
        let mut out = String::new();
        match (signing, self.family) {
            (true, KeyFamily::Rsa) => {
                out.append("R");
                push_dec(self.bits, &mut out);
                out.append(" R");
                push_dec(self.hash.bits(), &mut out);
                proof {
                    reveal_strlit("R");
                    reveal_strlit(" R");
                    assert(out@ =~= spec_descriptor(
                        self.family,
                        self.bits,
                        self.hash,
                        self.usage,
                    ).unwrap());
                }
                Ok(out)
            },
            (true, KeyFamily::Ec) => {
                out.append("EP");
                push_dec(self.bits, &mut out);
                out.append(" E");
                push_dec(self.hash.bits(), &mut out);
                proof {
                    reveal_strlit("EP");
                    reveal_strlit(" E");
                    assert(out@ =~= spec_descriptor(
                        self.family,
                        self.bits,
                        self.hash,
                        self.usage,
                    ).unwrap());
                }
                Ok(out)
            },
            (false, KeyFamily::Ec) => {
                out.append("EP");
                push_dec(self.bits, &mut out);
                out.append(" D");
                push_dec(self.hash.bits(), &mut out);
                proof {
                    reveal_strlit("EP");
                    reveal_strlit(" D");
                    assert(out@ =~= spec_descriptor(
                        self.family,
                        self.bits,
                        self.hash,
                        self.usage,
                    ).unwrap());
                }
                Ok(out)
            },
            (false, KeyFamily::Rsa) => Err(Error::CryptoFailure),
        }
    }

    /// Checks `sig` against this key over the canonical message encoding
    /// `msg`.  The metadata gate runs first: an inapplicable signature is
    /// rejected as `InvalidInput` before any cryptographic work.  Once the
    /// gate passes, the result is success exactly where the backend accepts
    /// the signature bytes — under PSS padding with digest-length salt
    /// precisely when the key is RSA — and every rejection surfaces as
    /// `CryptoFailure`.
    pub fn verify(&self, msg: &[u8], sig: &Signature) -> (r: Result<(), Error>)
        ensures
            !sig_matches_key(*sig, *self) <==> r == Err::<(), Error>(Error::InvalidInput),
            sig_matches_key(*sig, *self) ==> (r == Ok::<(), Error>(()) <==> backend::accepts(
                self.key,
                self.hash,
                self.family is Rsa,
                msg@,
                sig.sig@,
            )),
            sig_matches_key(*sig, *self) ==> (r == Ok::<(), Error>(()) || r == Err::<(), Error>(
                Error::CryptoFailure,
            )),
    {
        let usage = sig.usage == self.usage;
        let kind = sig.kind == self.family;
        let hash = sig.hash == self.hash;
        let id = id_matches(&sig.id, &self.id);
        if !usage || !kind || !hash || !id {
            return Err(Error::InvalidInput);
        }
        let pss = self.family == KeyFamily::Rsa;
        let outcome = match backend::verify_bytes(&self.key, self.hash, pss, msg, sig.sig.as_slice()) {
            Ok(b) => Some(b),
            Err(_) => None,
        };
        verdict(outcome)
    }
}

impl PrivateKey {
    /// Parses a DER-encoded private key and checks that its public
    /// component matches `key`; on success the reference key's metadata
    /// is copied onto the result.  It succeeds exactly on well-formed DER
    /// whose parsed key matches the reference's public component;
    /// malformed bytes and a mismatch both fail as `InvalidData`.
    pub fn decode(der: &[u8], key: &PublicKey) -> (r: Result<PrivateKey, Error>)
        ensures
            match r {
                Ok(prv) => prv.usage == key.usage && prv.hash == key.hash && prv.id == key.id
                    && prv.family == key.family && prv.key == backend::parsed_key_of(der@),
                Err(e) => e == Error::InvalidData,
            },
            r is Ok <==> (backend::der_private_ok(der@) && backend::keys_match(
                backend::parsed_key_of(der@),
                key.key,
            )),
    {
        let prv = match backend::private_key_from_der(der) {
            Ok(p) => p,
            Err(_) => {
                return Err(Error::InvalidData);
            },
        };
        let matches = backend::public_matches(&prv, &key.key);
        Self::from_checked_parts(prv, matches, key)
    }

    /// Decides what decoding returns once the backend has parsed the key
    /// bytes (`prv`) and compared public components (`matches`): the key
    /// with the reference metadata when they match, `InvalidData` when not.
    pub fn from_checked_parts(prv: pkey::PKey<pkey::Private>, matches: bool, key: &PublicKey) -> (r:
        Result<PrivateKey, Error>)
        ensures
            matches ==> (r matches Ok(p) && p.key == prv && p.usage == key.usage && p.hash
                == key.hash && p.id == key.id && p.family == key.family),
            !matches ==> r == Err::<PrivateKey, Error>(Error::InvalidData),
    {
        if matches {
            Ok(PrivateKey { id: key.id, key: prv, family: key.family, hash: key.hash, usage: key.usage })
        } else {
            Err(Error::InvalidData)
        }
    }

    /// Serializes the private key to DER: the output is the backend's DER
    /// form of the key handle alone, so no metadata is embedded and none
    /// of `self` is read but the handle; metadata must travel out of band.
    pub fn encode(&self) -> (r: Result<Vec<u8>, Error>)
        ensures
            r matches Ok(v) ==> v@ == backend::priv_der_of(self.key),
            r is Ok <==> backend::der_encodable(self.key),
            r is Err ==> r == Err::<Vec<u8>, Error>(Error::CryptoFailure),
    {
        match backend::private_der(&self.key) {
            Ok(buf) => Ok(buf),
            Err(_) => Err(Error::CryptoFailure),
        }
    }

    /// Signs the canonical message encoding `msg`, with PSS padding and a
    /// digest-length salt when the key is RSA, and packages the raw
    /// signature with this key's metadata, exactly as `verify` will check
    /// it.
    pub fn sign(&self, msg: &[u8]) -> (r: Result<Signature, Error>)
        ensures
            match r {
                Ok(s) => s.usage == self.usage && s.kind == self.family && s.hash == self.hash
                    && s.id == self.id,
                Err(e) => e == Error::CryptoFailure,
            },
    {
        let pss = self.family == KeyFamily::Rsa;
        let raw = match backend::sign_bytes(&self.key, self.hash, pss, msg) {
            Ok(v) => v,
            Err(_) => {
                return Err(Error::CryptoFailure);
            },
        };
        Ok(self.package_signature(raw))
    }

    /// Packages raw signature bytes, exactly as they came from the
    /// backend, with this key's metadata: the fields a later `verify`
    /// call's gate will check.
    pub fn package_signature(&self, raw: Vec<u8>) -> (s: Signature)
        ensures
            s.sig == raw,
            s.id == self.id,
            s.kind == self.family,
            s.hash == self.hash,
            s.usage == self.usage,
    {
        Signature { id: self.id, sig: raw, kind: self.family, hash: self.hash, usage: self.usage }
    }
}

/// A signature that carries exactly a private key's metadata passes the
/// compatibility gate of a public key with the same metadata: what `sign`
/// packages, `verify` accepts as applicable.
pub proof fn lemma_signed_matches_key(prv: PrivateKey, pubk: PublicKey, s: Signature)
    requires
        prv.usage == pubk.usage,
        prv.family == pubk.family,
        prv.hash == pubk.hash,
        prv.id == pubk.id,
        s.usage == prv.usage,
        s.kind == prv.family,
        s.hash == prv.hash,
        s.id == prv.id,
    ensures
        sig_matches_key(s, pubk),
{
}

} // verus!
