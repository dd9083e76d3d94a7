//! Errors reported by certificate and key-pair operations. Every
//! operation either returns a complete structure or fails with one of
//! these before producing any output.

use vstd::prelude::*;

verus! {

/// Why a certificate or key-pair operation failed.
#[derive(Clone, Copy, PartialEq, Eq, Structural, Debug)]
pub enum Error {
    /// The cryptographic provider offers no RSA key generation; RSA
    /// keys can only be imported.
    RsaKeyGenerationUnavailable,
    /// The provider could not produce fresh key material.
    KeyGenerationFailed,
    /// The PKCS#8 document matches no supported key family.
    CouldNotParseKeyPair,
    /// The text is not a well-formed PEM document.
    InvalidPem,
    /// The provider could not sign the message.
    SigningFailed,
    /// The ACME identifier digest was not exactly 32 bytes long.
    InvalidAcmeDigestLength,
}

impl Error {
    /// A short human-readable description of the failure.
    pub fn message(&self) -> &'static str {
        match self {
            Error::RsaKeyGenerationUnavailable => "no key generation available for RSA",
            Error::KeyGenerationFailed => "could not generate key pair",
            Error::CouldNotParseKeyPair => "could not parse key pair",
            Error::InvalidPem => "could not parse PEM document",
            Error::SigningFailed => "could not sign message",
            Error::InvalidAcmeDigestLength => "wrong size of sha_digest",
        }
    }
}

} // verus!
