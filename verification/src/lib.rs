//! Generation of X.509 certificates and PKCS#10 certificate signing
//! requests, serialized to DER and PEM, with the to-be-signed structures
//! encoded by verified code.

pub mod alg;
pub mod cert;
pub mod crypto;
pub mod der;
pub mod error;
pub mod keypair;
pub mod oids;
pub mod params;
pub mod pem_io;
pub mod time;

pub use alg::{DigestAlgorithm, SignatureAlgorithm};
pub use cert::{generate_simple_self_signed, Certificate};
pub use error::Error;
pub use keypair::KeyPair;
pub use params::{
    BasicConstraints, CertificateParams, CustomExtension, DistinguishedName, DnType, IsCa,
};
pub use time::{date_time_ymd, UtcDateTime};
