use vstd::prelude::*;
use crate::paths::starts_with;
use rsa::pkcs1::{DecodeRsaPublicKey, EncodeRsaPublicKey};

verus! {

#[verifier::external_type_specification]
#[verifier::external_body]
pub struct ExRsaPrivateKey(rsa::RsaPrivateKey);

#[verifier::external_type_specification]
#[verifier::external_body]
pub struct ExRsaError(rsa::Error);

#[verifier::external_type_specification]
#[verifier::external_body]
pub struct ExPkcs1Error(rsa::pkcs1::Error);

/// Size of the process's key, in bits.
pub const KEY_BITS: usize = 2048;

/// First line of a PEM-encoded PKCS#1 public key.
pub open spec fn pem_header() -> Seq<char> {
    "-----BEGIN RSA PUBLIC KEY-----\n"@
}

/// The PEM text that pkcs1 writes for the public key whose PKCS#1 DER
/// encoding is `der`, where that encoding decodes.
pub uninterp spec fn pkcs1_pem_of(der: Seq<u8>) -> Option<Seq<char>>;

/// The public key text handed out for a key whose public half encodes to
/// `der`: its PEM, or the empty string where there is none.
pub open spec fn exported_pem(der: Option<Seq<u8>>) -> Seq<char> {
    match der {
        Some(d) => match pkcs1_pem_of(d) {
            Some(p) => p,
            None => seq![],
        },
        None => seq![],
    }
}

/// Relies on rsa's `RsaPrivateKey::new`, fed by rand's `thread_rng`: a fresh
/// key pair of `bits` bits, or rsa's error. The key is random, so nothing
/// more is promised. `thread_rng` aborts the process where the system's
/// entropy source is unavailable.
#[verifier::external_body]
fn generate_private_key(bits: usize) -> (r: Result<rsa::RsaPrivateKey, rsa::Error>)
    requires
        64 <= bits <= 16384,
{
    rsa::RsaPrivateKey::new(&mut rand::thread_rng(), bits)
}

/// Relies on rsa's `EncodeRsaPublicKey::to_pkcs1_der`, on the public half of
/// `key` (`RsaPublicKey::from`): its PKCS#1 DER bytes.
#[verifier::external_body]
fn public_key_der(key: &rsa::RsaPrivateKey) -> (r: Result<Vec<u8>, rsa::pkcs1::Error>) {
    rsa::RsaPublicKey::from(key).to_pkcs1_der().map(|d| d.into_vec())
}

/// Relies on rsa's `DecodeRsaPublicKey::from_pkcs1_der` and
/// `EncodeRsaPublicKey::to_pkcs1_pem` with LF line endings (pkcs1 over
/// pem-rfc7468): the PEM text of the public key encoded as `der`, which
/// depends on `der` alone and opens with the PKCS#1 public-key boundary line.
#[verifier::external_body]
fn pkcs1_pem(der: &Vec<u8>) -> (r: Result<String, rsa::pkcs1::Error>)
    ensures
        r is Ok <==> pkcs1_pem_of(der@) is Some,
        r is Ok ==> pkcs1_pem_of(der@) == Some(r->Ok_0@),
        r is Ok ==> starts_with(r->Ok_0@, pem_header()),
{
    rsa::RsaPublicKey::from_pkcs1_der(der).and_then(|k| k.to_pkcs1_pem(rsa::pkcs1::LineEnding::LF))
}

/// The PEM text, or the empty string where encoding failed: callers take an
/// empty string as "no usable key".
pub fn pem_or_empty<E>(pem: Result<String, E>) -> (r: String)
    ensures
        pem is Ok ==> r@ == pem->Ok_0@,
        pem is Err ==> r@ == Seq::<char>::empty(),
{
    match pem {
        Ok(s) => s,
        Err(_) => String::new(),
    }
}

/// Why no key pair could be made.
#[derive(Debug, Clone, Copy, PartialEq, Eq, Structural)]
pub enum KeyError {
    GenerationFailed,
}

/// The asymmetric key pair that the process holds for its whole lifetime;
/// only the public half ever leaves it.
pub struct KeyIdentity {
    key: rsa::RsaPrivateKey,
    /// PKCS#1 DER encoding of the public half, where it could be encoded.
    public_der: Option<Vec<u8>>,
    /// Size the key was made with, in bits.
    bits: usize,
}

impl KeyIdentity {
    /// Size the key was made with, in bits.
    pub closed spec fn bits(&self) -> nat {
        self.bits as nat
    }

    /// PKCS#1 DER encoding of the public half, where it could be encoded.
    pub closed spec fn public_der(&self) -> Option<Seq<u8>> {
        match self.public_der {
            Some(d) => Some(d@),
            None => None,
        }
    }

    /// Makes a fresh key pair of the process's key size. Fails where rsa
    /// reports an error; the process aborts where the system has no entropy
    /// source.
    pub fn generate() -> (r: Result<KeyIdentity, KeyError>)
        ensures
            r is Ok ==> r->Ok_0.bits() == KEY_BITS,
    {
        KeyIdentity::generate_with_size(KEY_BITS)
    }

    /// Makes a fresh key pair of `bits` bits. Fails where rsa reports an
    /// error; the process aborts where the system has no entropy source.
    pub fn generate_with_size(bits: usize) -> (r: Result<KeyIdentity, KeyError>)
        requires
            64 <= bits <= 16384,
        ensures
            r is Ok ==> r->Ok_0.bits() == bits,
    {
        match generate_private_key(bits) {
            Ok(key) => {
                let public_der = match public_key_der(&key) {
                    Ok(d) => Some(d),
                    Err(_) => None,
                };
                Ok(KeyIdentity { key, public_der, bits })
            },
            Err(_) => Err(KeyError::GenerationFailed),
        }
    }

    /// The public key, PEM-encoded as PKCS#1; empty where encoding failed.
    /// It depends on the key alone, so every call gives the same text.
    pub fn export_public_pem(&self) -> (r: String)
        ensures
            r@ == exported_pem(self.public_der()),
            r@.len() == 0 || starts_with(r@, pem_header()),
    {
        match &self.public_der {
            Some(der) => pem_or_empty(pkcs1_pem(der)),
            None => String::new(),
        }
    }
}

} // verus!
