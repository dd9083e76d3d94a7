//! Key pairs used to sign certificates and requests: generation,
//! PKCS#8 import with family auto-detection, signing, and export of
//! the original PKCS#8 bytes.

use vstd::prelude::*;
use crate::alg::SignatureAlgorithm;
use crate::crypto;
use crate::der;
use crate::error::Error;
use crate::pem_io;

verus! {

/// The serialized forms kept beside a live signing handle: the PKCS#8
/// document the key came from, retained verbatim for export, and the
/// raw public key bytes for subjectPublicKeyInfo.
pub struct KeyData {
    /// The original PKCS#8 bytes, from generation or import.
    pub pkcs8: Vec<u8>,
    /// The raw encoded public key.
    pub public_key: Vec<u8>,
}

/// A key pair used to sign certificates and requests.
pub enum KeyPair {
    /// An ECDSA key pair.
    EcKp(ring::signature::EcdsaKeyPair, KeyData),
    /// An Ed25519 key pair.
    EdKp(ring::signature::Ed25519KeyPair, KeyData),
    /// An RSA key pair.
    Rsa(ring::signature::RsaKeyPair, KeyData),
}

/// Whether a key pair's family is the one the algorithm entry signs
/// with.
pub open spec fn spec_matches_family(kp: &KeyPair, alg: SignatureAlgorithm) -> bool {
    match alg {
        SignatureAlgorithm::RsaSha256 => kp is Rsa,
        SignatureAlgorithm::EcdsaP256Sha256 => kp is EcKp,
        SignatureAlgorithm::EcdsaP384Sha384 => kp is EcKp,
        SignatureAlgorithm::Ed25519 => kp is EdKp,
    }
}

/// The form the signing family fixes for its signature bytes: the
/// 64-byte fixed format for Ed25519, a DER SEQUENCE of two INTEGERs
/// for ECDSA; for RSA the length equals the modulus length of the
/// opaque key, which plain values cannot state.
pub open spec fn spec_signature_form(kp: &KeyPair, sig: Seq<u8>) -> bool {
    match kp {
        KeyPair::EdKp(..) => sig.len() == 64,
        KeyPair::EcKp(..) => exists|rc: Seq<u8>, sc: Seq<u8>|
            sig == der::spec_tlv(
                der::TAG_SEQUENCE,
                der::spec_tlv(der::TAG_INTEGER, rc) + der::spec_tlv(der::TAG_INTEGER, sc),
            ),
        KeyPair::Rsa(..) => true,
    }
}

/// Whether a key pair's stored PKCS#8 bytes parse back under its own
/// family's parser, so that exporting and importing them again finds
/// the same family.
pub open spec fn spec_parses_back(kp: &KeyPair) -> bool {
    match kp {
        KeyPair::EcKp(_, d) => crypto::spec_is_p256_pkcs8(d.pkcs8@) || crypto::spec_is_p384_pkcs8(
            d.pkcs8@,
        ),
        KeyPair::EdKp(_, d) => crypto::spec_is_ed25519_pkcs8(d.pkcs8@),
        KeyPair::Rsa(_, d) => crypto::spec_is_rsa_pkcs8(d.pkcs8@),
    }
}

/// Copies a byte slice into a fresh vector.
pub(crate) fn bytes_to_vec(b: &[u8]) -> (r: Vec<u8>)
    ensures
        r@ == b@,
{
    let mut v: Vec<u8> = Vec::new();
    der::push_bytes(&mut v, b);
    v
}

impl KeyPair {
    /// The PKCS#8 bytes the key pair was generated or imported from.
    pub open spec fn spec_pkcs8(&self) -> Seq<u8> {
        match self {
            KeyPair::EcKp(_, d) => d.pkcs8@,
            KeyPair::EdKp(_, d) => d.pkcs8@,
            KeyPair::Rsa(_, d) => d.pkcs8@,
        }
    }

    /// The raw encoded public key bytes.
    pub open spec fn spec_public_key(&self) -> Seq<u8> {
        match self {
            KeyPair::EcKp(_, d) => d.public_key@,
            KeyPair::EdKp(_, d) => d.public_key@,
            KeyPair::Rsa(_, d) => d.public_key@,
        }
    }

    /// Generates a new random key pair for the signature algorithm.
    /// RSA key generation is unsupported and always fails; for the
    /// other entries, failure can only come from the provider.
    pub fn generate(alg: &SignatureAlgorithm) -> (r: Result<KeyPair, Error>)
        ensures
            *alg is RsaSha256 <==> r == Err::<KeyPair, Error>(Error::RsaKeyGenerationUnavailable),
            r is Err ==> r == Err::<KeyPair, Error>(Error::RsaKeyGenerationUnavailable) || r
                == Err::<KeyPair, Error>(Error::KeyGenerationFailed),
            r is Ok ==> spec_matches_family(&r.unwrap(), *alg),
            r is Ok ==> spec_parses_back(&r.unwrap()),
    {
        match alg {
            SignatureAlgorithm::RsaSha256 => Err(Error::RsaKeyGenerationUnavailable),
            SignatureAlgorithm::EcdsaP256Sha256 => {
                match crypto::ecdsa_generate_pkcs8_p256() {
                    None => Err(Error::KeyGenerationFailed),
                    Some(doc) => match crypto::ecdsa_from_pkcs8_p256(doc.as_slice()) {
                        None => Err(Error::KeyGenerationFailed),
                        Some(kp) => {
                            let pk = crypto::ecdsa_public_key(&kp);
                            Ok(KeyPair::EcKp(kp, KeyData { pkcs8: doc, public_key: pk }))
                        },
                    },
                }
            },
            SignatureAlgorithm::EcdsaP384Sha384 => {
                match crypto::ecdsa_generate_pkcs8_p384() {
                    None => Err(Error::KeyGenerationFailed),
                    Some(doc) => match crypto::ecdsa_from_pkcs8_p384(doc.as_slice()) {
                        None => Err(Error::KeyGenerationFailed),
                        Some(kp) => {
                            let pk = crypto::ecdsa_public_key(&kp);
                            Ok(KeyPair::EcKp(kp, KeyData { pkcs8: doc, public_key: pk }))
                        },
                    },
                }
            },
            SignatureAlgorithm::Ed25519 => {
                match crypto::ed25519_generate_pkcs8() {
                    None => Err(Error::KeyGenerationFailed),
                    Some(doc) => match crypto::ed25519_from_pkcs8(doc.as_slice()) {
                        None => Err(Error::KeyGenerationFailed),
                        Some(kp) => {
                            let pk = crypto::ed25519_public_key(&kp);
                            Ok(KeyPair::EdKp(kp, KeyData { pkcs8: doc, public_key: pk }))
                        },
                    },
                }
            },
        }
    }

    /// Imports a key pair from PKCS#8 bytes, detecting the family in a
    /// fixed priority order: Ed25519, then ECDSA P-256, then ECDSA
    /// P-384, then RSA; the first successful parse wins, so bytes that
    /// parse as Ed25519 always import as Ed25519. The input bytes are
    /// retained verbatim for export, and the call fails only where no
    /// supported family parses them: in particular never on Ed25519 or
    /// RSA bytes, and always when no family's parser accepts them.
    pub fn from_der(pkcs8: &[u8]) -> (r: Result<KeyPair, Error>)
        ensures
            r is Ok ==> r.unwrap().spec_pkcs8() == pkcs8@,
            r is Ok ==> spec_parses_back(&r.unwrap()),
            crypto::spec_is_ed25519_pkcs8(pkcs8@) ==> r is Ok && r.unwrap() is EdKp,
            r is Err ==> r == Err::<KeyPair, Error>(Error::CouldNotParseKeyPair),
            r is Err ==> !crypto::spec_is_ed25519_pkcs8(pkcs8@) && !crypto::spec_is_rsa_pkcs8(
                pkcs8@,
            ),
            !crypto::spec_is_ed25519_pkcs8(pkcs8@) && !crypto::spec_is_p256_pkcs8(pkcs8@)
                && !crypto::spec_is_p384_pkcs8(pkcs8@) && !crypto::spec_is_rsa_pkcs8(pkcs8@)
                ==> r is Err,
    {
        match crypto::ed25519_from_pkcs8(pkcs8) {
            Some(kp) => {
                let pk = crypto::ed25519_public_key(&kp);
                return Ok(
                    KeyPair::EdKp(kp, KeyData { pkcs8: bytes_to_vec(pkcs8), public_key: pk }),
                );
            },
            None => {},
        }
        match crypto::ecdsa_from_pkcs8_p256(pkcs8) {
            Some(kp) => {
                let pk = crypto::ecdsa_public_key(&kp);
                return Ok(
                    KeyPair::EcKp(kp, KeyData { pkcs8: bytes_to_vec(pkcs8), public_key: pk }),
                );
            },
            None => {},
        }
        match crypto::ecdsa_from_pkcs8_p384(pkcs8) {
            Some(kp) => {
                let pk = crypto::ecdsa_public_key(&kp);
                return Ok(
                    KeyPair::EcKp(kp, KeyData { pkcs8: bytes_to_vec(pkcs8), public_key: pk }),
                );
            },
            None => {},
        }
        match crypto::rsa_from_pkcs8(pkcs8) {
            Some(kp) => {
                let pk = crypto::rsa_public_key(&kp);
                return Ok(
                    KeyPair::Rsa(kp, KeyData { pkcs8: bytes_to_vec(pkcs8), public_key: pk }),
                );
            },
            None => {},
        }
        Err(Error::CouldNotParseKeyPair)
    }

    /// Parses a key pair from a PEM document holding PKCS#8 bytes:
    /// text that is no PEM document is rejected, and otherwise the
    /// decoded contents import exactly as `from_der` would import
    /// them.
    pub fn from_pem(pem_str: &str) -> (r: Result<KeyPair, Error>)
        ensures
            r is Err ==> r == Err::<KeyPair, Error>(Error::InvalidPem) || r == Err::<
                KeyPair,
                Error,
            >(Error::CouldNotParseKeyPair),
            r == Err::<KeyPair, Error>(Error::InvalidPem) <==> pem_io::spec_pem_parse(pem_str@)
                is None,
            pem_io::spec_pem_parse(pem_str@) matches Some(contents) ==> {
                &&& (r is Ok ==> r.unwrap().spec_pkcs8() == contents && spec_parses_back(
                    &r.unwrap(),
                ))
                &&& (crypto::spec_is_ed25519_pkcs8(contents) ==> r is Ok && r.unwrap() is EdKp)
                &&& (r is Err ==> !crypto::spec_is_ed25519_pkcs8(contents)
                    && !crypto::spec_is_rsa_pkcs8(contents))
            },
    {
        match pem_io::pem_parse_contents(pem_str) {
            None => Err(Error::InvalidPem),
            Some(contents) => KeyPair::from_der(contents.as_slice()),
        }
    }

    /// The raw encoded public key bytes.
    pub(crate) fn public_key(&self) -> (r: &Vec<u8>)
        ensures
            r@ == self.spec_public_key(),
    {
        match self {
            KeyPair::EcKp(_, d) => &d.public_key,
            KeyPair::EdKp(_, d) => &d.public_key,
            KeyPair::Rsa(_, d) => &d.public_key,
        }
    }

    /// Signs a message with the key's bound family: for ECDSA a DER
    /// SEQUENCE of the two signature INTEGERs, for Ed25519 the 64-byte
    /// fixed-format signature, for RSA a raw signature as long as the
    /// modulus. Ed25519 signing cannot fail; for the other families,
    /// failure can only come from the provider.
    pub(crate) fn sign(&self, msg: &[u8]) -> (r: Result<Vec<u8>, Error>)
        ensures
            self is EdKp ==> r is Ok,
            r is Ok ==> spec_signature_form(self, r.unwrap()@),
            r is Err ==> r == Err::<Vec<u8>, Error>(Error::SigningFailed),
    {
        match self {
            KeyPair::EcKp(kp, _) => match crypto::ecdsa_sign(kp, msg) {
                Some(sig) => Ok(sig),
                None => Err(Error::SigningFailed),
            },
            KeyPair::EdKp(kp, _) => Ok(crypto::ed25519_sign(kp, msg)),
            KeyPair::Rsa(kp, _) => match crypto::rsa_sign(kp, msg) {
                Some(sig) => Ok(sig),
                None => Err(Error::SigningFailed),
            },
        }
    }

    /// Serializes the private key as the original PKCS#8 bytes,
    /// verbatim, never re-encoded.
    pub fn serialize_der(&self) -> (r: Vec<u8>)
        ensures
            r@ == self.spec_pkcs8(),
    {
        match self {
            KeyPair::EcKp(_, d) => bytes_to_vec(d.pkcs8.as_slice()),
            KeyPair::EdKp(_, d) => bytes_to_vec(d.pkcs8.as_slice()),
            KeyPair::Rsa(_, d) => bytes_to_vec(d.pkcs8.as_slice()),
        }
    }

    /// Serializes the private key as a PEM document with the
    /// `PRIVATE KEY` label around the PKCS#8 bytes; parsing the text
    /// back yields exactly those bytes.
    pub fn serialize_pem(&self) -> (r: String)
        ensures
            r@ == pem_io::spec_pem_encode("PRIVATE KEY"@, self.spec_pkcs8()),
            pem_io::spec_pem_parse(r@) == Some(self.spec_pkcs8()),
    {
        let der_bytes = self.serialize_der();
        pem_io::pem_encode("PRIVATE KEY", der_bytes.as_slice())
    }
}

} // verus!

