//! Trusted bindings to the cryptographic provider: key generation,
//! PKCS#8 import, signing, and digests. Each item's contract states
//! only what the provider's source and documentation show.

use vstd::prelude::*;
use ring::signature::KeyPair as RingKeyPair;
use crate::der;

verus! {

#[verifier::external_type_specification]
#[verifier::external_body]
/// Declares the provider's ECDSA key pair type.
pub struct ExEcdsaKeyPair(ring::signature::EcdsaKeyPair);

#[verifier::external_type_specification]
#[verifier::external_body]
/// Declares the provider's Ed25519 key pair type.
pub struct ExEd25519KeyPair(ring::signature::Ed25519KeyPair);

#[verifier::external_type_specification]
#[verifier::external_body]
/// Declares the provider's RSA key pair type.
pub struct ExRsaKeyPair(ring::signature::RsaKeyPair);

/// Whether the bytes parse as a PKCS#8 v1 or v2 Ed25519 private key.
pub uninterp spec fn spec_is_ed25519_pkcs8(pkcs8: Seq<u8>) -> bool;

/// Whether the bytes parse as a PKCS#8 v1 ECDSA P-256 private key.
pub uninterp spec fn spec_is_p256_pkcs8(pkcs8: Seq<u8>) -> bool;

/// Whether the bytes parse as a PKCS#8 v1 ECDSA P-384 private key.
pub uninterp spec fn spec_is_p384_pkcs8(pkcs8: Seq<u8>) -> bool;

/// Whether the bytes parse as a PKCS#8 v1 RSA private key.
pub uninterp spec fn spec_is_rsa_pkcs8(pkcs8: Seq<u8>) -> bool;

/// What SHA-256 returns on the given bytes.
pub uninterp spec fn spec_sha256(data: Seq<u8>) -> Seq<u8>;

/// What SHA-384 returns on the given bytes.
pub uninterp spec fn spec_sha384(data: Seq<u8>) -> Seq<u8>;

/// What SHA-512 returns on the given bytes.
pub uninterp spec fn spec_sha512(data: Seq<u8>) -> Seq<u8>;

/// Relies on ring::digest::digest with SHA256: the digest depends on
/// the data alone and holds 32 bytes.
#[verifier::external_body]
pub(crate) fn sha256(data: &[u8]) -> (r: Vec<u8>)
    ensures
        r@ == spec_sha256(data@),
        r@.len() == 32,
{
    ring::digest::digest(&ring::digest::SHA256, data).as_ref().to_vec()
}

/// Relies on ring::digest::digest with SHA384: the digest depends on
/// the data alone and holds 48 bytes.
#[verifier::external_body]
pub(crate) fn sha384(data: &[u8]) -> (r: Vec<u8>)
    ensures
        r@ == spec_sha384(data@),
        r@.len() == 48,
{
    ring::digest::digest(&ring::digest::SHA384, data).as_ref().to_vec()
}

/// Relies on ring::digest::digest with SHA512: the digest depends on
/// the data alone and holds 64 bytes.
#[verifier::external_body]
pub(crate) fn sha512(data: &[u8]) -> (r: Vec<u8>)
    ensures
        r@ == spec_sha512(data@),
        r@.len() == 64,
{
    ring::digest::digest(&ring::digest::SHA512, data).as_ref().to_vec()
}

/// Relies on Ed25519KeyPair::generate_pkcs8: a fresh random key as a
/// PKCS#8 v2 document; nothing is promised of the bytes.
#[verifier::external_body]
pub(crate) fn ed25519_generate_pkcs8() -> (r: Option<Vec<u8>>) {
    let rng = ring::rand::SystemRandom::new();
    match ring::signature::Ed25519KeyPair::generate_pkcs8(&rng) {
        Ok(doc) => Some(doc.as_ref().to_vec()),
        Err(_) => None,
    }
}

/// Relies on EcdsaKeyPair::generate_pkcs8 for the P-256 curve: a fresh
/// random key as a PKCS#8 v1 document; nothing is promised of the bytes.
#[verifier::external_body]
pub(crate) fn ecdsa_generate_pkcs8_p256() -> (r: Option<Vec<u8>>) {
    let rng = ring::rand::SystemRandom::new();
    match ring::signature::EcdsaKeyPair::generate_pkcs8(
        &ring::signature::ECDSA_P256_SHA256_ASN1_SIGNING,
        &rng,
    ) {
        Ok(doc) => Some(doc.as_ref().to_vec()),
        Err(_) => None,
    }
}

/// Relies on EcdsaKeyPair::generate_pkcs8 for the P-384 curve: a fresh
/// random key as a PKCS#8 v1 document; nothing is promised of the bytes.
#[verifier::external_body]
pub(crate) fn ecdsa_generate_pkcs8_p384() -> (r: Option<Vec<u8>>) {
    let rng = ring::rand::SystemRandom::new();
    match ring::signature::EcdsaKeyPair::generate_pkcs8(
        &ring::signature::ECDSA_P384_SHA384_ASN1_SIGNING,
        &rng,
    ) {
        Ok(doc) => Some(doc.as_ref().to_vec()),
        Err(_) => None,
    }
}

/// Relies on Ed25519KeyPair::from_pkcs8_maybe_unchecked: parses a
/// PKCS#8 v1 or v2 Ed25519 key, or fails; the outcome is a
/// deterministic function of the bytes alone.
#[verifier::external_body]
pub(crate) fn ed25519_from_pkcs8(pkcs8: &[u8]) -> (r: Option<ring::signature::Ed25519KeyPair>)
    ensures
        r is Some <==> spec_is_ed25519_pkcs8(pkcs8@),
{
    ring::signature::Ed25519KeyPair::from_pkcs8_maybe_unchecked(pkcs8).ok()
}

/// Relies on EcdsaKeyPair::from_pkcs8 with the P-256/SHA-256 ASN.1
/// signing algorithm: parses a PKCS#8 v1 key of that curve, or fails.
/// The parse step is deterministic in the bytes; success additionally
/// needs the random source, so only one direction of each claim is
/// tied to the bytes.
#[verifier::external_body]
pub(crate) fn ecdsa_from_pkcs8_p256(pkcs8: &[u8]) -> (r: Option<ring::signature::EcdsaKeyPair>)
    ensures
        r is Some ==> spec_is_p256_pkcs8(pkcs8@),
        !spec_is_p256_pkcs8(pkcs8@) ==> r is None,
{
    let rng = ring::rand::SystemRandom::new();
    ring::signature::EcdsaKeyPair::from_pkcs8(
        &ring::signature::ECDSA_P256_SHA256_ASN1_SIGNING,
        pkcs8,
        &rng,
    ).ok()
}

/// Relies on EcdsaKeyPair::from_pkcs8 with the P-384/SHA-384 ASN.1
/// signing algorithm: parses a PKCS#8 v1 key of that curve, or fails.
/// The parse step is deterministic in the bytes; success additionally
/// needs the random source, so only one direction of each claim is
/// tied to the bytes.
#[verifier::external_body]
pub(crate) fn ecdsa_from_pkcs8_p384(pkcs8: &[u8]) -> (r: Option<ring::signature::EcdsaKeyPair>)
    ensures
        r is Some ==> spec_is_p384_pkcs8(pkcs8@),
        !spec_is_p384_pkcs8(pkcs8@) ==> r is None,
{
    let rng = ring::rand::SystemRandom::new();
    ring::signature::EcdsaKeyPair::from_pkcs8(
        &ring::signature::ECDSA_P384_SHA384_ASN1_SIGNING,
        pkcs8,
        &rng,
    ).ok()
}

/// Relies on RsaKeyPair::from_pkcs8: parses a PKCS#8 v1 RSA key pair,
/// or fails; the outcome is a deterministic function of the bytes
/// alone.
#[verifier::external_body]
pub(crate) fn rsa_from_pkcs8(pkcs8: &[u8]) -> (r: Option<ring::signature::RsaKeyPair>)
    ensures
        r is Some <==> spec_is_rsa_pkcs8(pkcs8@),
{
    ring::signature::RsaKeyPair::from_pkcs8(pkcs8).ok()
}

/// Relies on ring::signature::KeyPair::public_key of EcdsaKeyPair: the
/// key's public half, as uncompressed curve-point bytes.
#[verifier::external_body]
pub(crate) fn ecdsa_public_key(kp: &ring::signature::EcdsaKeyPair) -> (r: Vec<u8>) {
    kp.public_key().as_ref().to_vec()
}

/// Relies on ring::signature::KeyPair::public_key of Ed25519KeyPair:
/// the key's public half, as raw point bytes.
#[verifier::external_body]
pub(crate) fn ed25519_public_key(kp: &ring::signature::Ed25519KeyPair) -> (r: Vec<u8>) {
    kp.public_key().as_ref().to_vec()
}

/// Relies on ring::signature::KeyPair::public_key of RsaKeyPair: the
/// key's public half, as a DER RSAPublicKey of modulus and exponent.
#[verifier::external_body]
pub(crate) fn rsa_public_key(kp: &ring::signature::RsaKeyPair) -> (r: Vec<u8>) {
    kp.public_key().as_ref().to_vec()
}

/// Relies on EcdsaKeyPair::sign: an ECDSA signature over the message,
/// drawn with a fresh random nonce, or failure. The provider formats
/// it as a DER SEQUENCE of two INTEGERs, each with a one-byte length;
/// beyond that shape, nothing is promised of the bytes.
#[verifier::external_body]
pub(crate) fn ecdsa_sign(kp: &ring::signature::EcdsaKeyPair, msg: &[u8]) -> (r: Option<Vec<u8>>)
    ensures
        r is Some ==> exists|rc: Seq<u8>, sc: Seq<u8>|
            r.unwrap()@ == der::spec_tlv(
                der::TAG_SEQUENCE,
                der::spec_tlv(der::TAG_INTEGER, rc) + der::spec_tlv(der::TAG_INTEGER, sc),
            ),
{
    let rng = ring::rand::SystemRandom::new();
    match kp.sign(&rng, msg) {
        Ok(sig) => Some(sig.as_ref().to_vec()),
        Err(_) => None,
    }
}

/// Relies on Ed25519KeyPair::sign: the 64-byte Ed25519 signature over
/// the message; beyond the length, nothing is promised of the bytes.
#[verifier::external_body]
pub(crate) fn ed25519_sign(kp: &ring::signature::Ed25519KeyPair, msg: &[u8]) -> (r: Vec<u8>)
    ensures
        r@.len() == 64,
{
    kp.sign(msg).as_ref().to_vec()
}

/// Relies on RsaKeyPair::sign with PKCS#1 1.5 padding and SHA-256: a
/// signature as long as the public modulus, or failure; nothing is
/// promised of the bytes.
#[verifier::external_body]
pub(crate) fn rsa_sign(kp: &ring::signature::RsaKeyPair, msg: &[u8]) -> (r: Option<Vec<u8>>) {
    let rng = ring::rand::SystemRandom::new();
    let mut sig = vec![0u8; kp.public().modulus_len()];
    match kp.sign(&ring::signature::RSA_PKCS1_SHA256, &rng, msg, &mut sig) {
        Ok(()) => Some(sig),
        Err(_) => None,
    }
}

} // verus!
