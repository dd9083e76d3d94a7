//! The registry of supported signature algorithms: the object
//! identifiers that name each algorithm and its public key form, the
//! digest each uses, and whether an explicit NULL parameter follows the
//! algorithm identifier.

use vstd::prelude::*;
use crate::der;
use crate::oids;

verus! {

/// A supported signature algorithm.
#[derive(Clone, Copy, PartialEq, Eq, Structural, Debug)]
pub enum SignatureAlgorithm {
    /// RSA signing with PKCS#1 1.5 padding and SHA-256 hashing.
    RsaSha256,
    /// ECDSA signing on the P-256 curve with SHA-256 hashing.
    EcdsaP256Sha256,
    /// ECDSA signing on the P-384 curve with SHA-384 hashing.
    EcdsaP384Sha384,
    /// Ed25519 signing; the digest below serves only the subject key
    /// identifier, as Ed25519 has no external digest step.
    Ed25519,
}

/// A digest algorithm used for subject key identifiers.
#[derive(Clone, Copy, PartialEq, Eq, Structural, Debug)]
pub enum DigestAlgorithm {
    /// SHA-256, with 32 output bytes.
    Sha256,
    /// SHA-384, with 48 output bytes.
    Sha384,
    /// SHA-512, with 64 output bytes.
    Sha512,
}

/// The object identifier of the combined signature algorithm.
pub open spec fn spec_signature_oid(alg: SignatureAlgorithm) -> Seq<u64> {
    match alg {
        SignatureAlgorithm::RsaSha256 => oids::spec_oid_rsa_sha256(),
        SignatureAlgorithm::EcdsaP256Sha256 => oids::spec_oid_ecdsa_sha256(),
        SignatureAlgorithm::EcdsaP384Sha384 => oids::spec_oid_ecdsa_sha384(),
        SignatureAlgorithm::Ed25519 => oids::spec_oid_ed25519(),
    }
}

/// Whether an explicit ASN.1 NULL parameter follows the algorithm's
/// object identifier.
pub open spec fn spec_needs_null_params(alg: SignatureAlgorithm) -> bool {
    alg is RsaSha256
}

/// The digest algorithm bound to the signature algorithm.
pub open spec fn spec_digest_algorithm(alg: SignatureAlgorithm) -> DigestAlgorithm {
    match alg {
        SignatureAlgorithm::RsaSha256 => DigestAlgorithm::Sha256,
        SignatureAlgorithm::EcdsaP256Sha256 => DigestAlgorithm::Sha256,
        SignatureAlgorithm::EcdsaP384Sha384 => DigestAlgorithm::Sha384,
        SignatureAlgorithm::Ed25519 => DigestAlgorithm::Sha512,
    }
}

/// The AlgorithmIdentifier naming the signature algorithm: a SEQUENCE
/// of its object identifier, and a NULL parameter where required.
pub open spec fn spec_alg_ident(alg: SignatureAlgorithm) -> Seq<u8> {
    der::spec_tlv(
        der::TAG_SEQUENCE,
        der::spec_oid(spec_signature_oid(alg)) + if spec_needs_null_params(alg) {
            der::spec_null()
        } else {
            Seq::empty()
        },
    )
}

/// The content of the AlgorithmIdentifier inside subjectPublicKeyInfo:
/// the public key algorithm's identifiers, with the curve for ECDSA and
/// a NULL parameter for RSA.
pub open spec fn spec_spki_alg_content(alg: SignatureAlgorithm) -> Seq<u8> {
    match alg {
        SignatureAlgorithm::RsaSha256 => der::spec_oid(oids::spec_oid_rsa_encryption())
            + der::spec_null(),
        SignatureAlgorithm::EcdsaP256Sha256 => der::spec_oid(oids::spec_oid_ec_public_key())
            + der::spec_oid(oids::spec_oid_ec_secp_256_r1()),
        SignatureAlgorithm::EcdsaP384Sha384 => der::spec_oid(oids::spec_oid_ec_public_key())
            + der::spec_oid(oids::spec_oid_ec_secp_384_r1()),
        SignatureAlgorithm::Ed25519 => der::spec_oid(oids::spec_oid_ed25519()),
    }
}

/// The AlgorithmIdentifier inside subjectPublicKeyInfo.
pub open spec fn spec_spki_alg(alg: SignatureAlgorithm) -> Seq<u8> {
    der::spec_tlv(der::TAG_SEQUENCE, spec_spki_alg_content(alg))
}

impl SignatureAlgorithm {
    /// Whether this is the RSA entry, whose keys can only be imported.
    pub fn is_rsa(&self) -> (r: bool)
        ensures
            r == (*self is RsaSha256),
    {
        match self {
            SignatureAlgorithm::RsaSha256 => true,
            _ => false,
        }
    }

    /// The digest algorithm bound to this entry.
    pub fn digest_algorithm(&self) -> (r: DigestAlgorithm)
        ensures
            r == spec_digest_algorithm(*self),
    {
        match self {
            SignatureAlgorithm::RsaSha256 => DigestAlgorithm::Sha256,
            SignatureAlgorithm::EcdsaP256Sha256 => DigestAlgorithm::Sha256,
            SignatureAlgorithm::EcdsaP384Sha384 => DigestAlgorithm::Sha384,
            SignatureAlgorithm::Ed25519 => DigestAlgorithm::Sha512,
        }
    }

    /// Encodes the AlgorithmIdentifier naming this signature algorithm.
    pub fn der_alg_ident(&self) -> (r: Vec<u8>)
        ensures
            r@ == spec_alg_ident(*self),
    {
        let oid = match self {
            SignatureAlgorithm::RsaSha256 => oids::oid_rsa_sha256(),
            SignatureAlgorithm::EcdsaP256Sha256 => oids::oid_ecdsa_sha256(),
            SignatureAlgorithm::EcdsaP384Sha384 => oids::oid_ecdsa_sha384(),
            SignatureAlgorithm::Ed25519 => oids::oid_ed25519(),
        };
        let mut content = der::der_oid(oid.as_slice());
        if self.is_rsa() {
            der::push_null(&mut content);
        }
        assert(content@ =~= der::spec_oid(spec_signature_oid(*self)) + if spec_needs_null_params(
            *self,
        ) {
            der::spec_null()
        } else {
            Seq::empty()
        });
        der::wrap(der::TAG_SEQUENCE, content)
    }

    /// Encodes the AlgorithmIdentifier for subjectPublicKeyInfo.
    pub fn der_spki_alg(&self) -> (r: Vec<u8>)
        ensures
            r@ == spec_spki_alg(*self),
    {
        let mut content: Vec<u8>;
        match self {
            SignatureAlgorithm::RsaSha256 => {
                let oid = oids::oid_rsa_encryption();
                content = der::der_oid(oid.as_slice());
                der::push_null(&mut content);
            },
            SignatureAlgorithm::EcdsaP256Sha256 => {
                let oid = oids::oid_ec_public_key();
                content = der::der_oid(oid.as_slice());
                let curve = oids::oid_ec_secp_256_r1();
                let mut curve_der = der::der_oid(curve.as_slice());
                content.append(&mut curve_der);
            },
            SignatureAlgorithm::EcdsaP384Sha384 => {
                let oid = oids::oid_ec_public_key();
                content = der::der_oid(oid.as_slice());
                let curve = oids::oid_ec_secp_384_r1();
                let mut curve_der = der::der_oid(curve.as_slice());
                content.append(&mut curve_der);
            },
            SignatureAlgorithm::Ed25519 => {
                let oid = oids::oid_ed25519();
                content = der::der_oid(oid.as_slice());
            },
        }
        assert(content@ =~= spec_spki_alg_content(*self));
        der::wrap(der::TAG_SEQUENCE, content)
    }
}

} // verus!
