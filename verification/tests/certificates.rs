//! End-to-end tests: build certificates and requests, re-parse the
//! DER with a small independent reader, and check signatures with the
//! cryptographic provider.

use rcgen::{
    date_time_ymd, generate_simple_self_signed, BasicConstraints, Certificate,
    CertificateParams, CustomExtension, DistinguishedName, DnType, Error, IsCa, KeyPair,
    SignatureAlgorithm, UtcDateTime,
};

/// One parsed tag-length-value triple.
#[derive(Clone, Copy, Debug)]
struct Tlv {
    tag: u8,
    /// Start of the whole triple.
    start: usize,
    /// Start of the content octets.
    content_start: usize,
    /// Length of the content octets.
    content_len: usize,
    /// First position after the triple.
    end: usize,
}

fn read_tlv(b: &[u8], pos: usize) -> Tlv {
    let tag = b[pos];
    let l0 = b[pos + 1];
    if l0 < 0x80 {
        let len = l0 as usize;
        Tlv { tag, start: pos, content_start: pos + 2, content_len: len, end: pos + 2 + len }
    } else {
        let k = (l0 & 0x7f) as usize;
        assert!(k >= 1, "minimal DER must use the short form below 128");
        let mut len: usize = 0;
        for i in 0..k {
            len = len * 256 + b[pos + 2 + i] as usize;
        }
        assert!(len >= 128, "minimal DER must not use the long form below 128");
        Tlv { tag, start: pos, content_start: pos + 2 + k, content_len: len, end: pos + 2 + k + len }
    }
}

fn children(b: &[u8], t: &Tlv) -> Vec<Tlv> {
    let mut out = Vec::new();
    let mut pos = t.content_start;
    let stop = t.content_start + t.content_len;
    while pos < stop {
        let c = read_tlv(b, pos);
        assert!(c.end <= stop, "child runs past its parent");
        out.push(c);
        pos = c.end;
    }
    assert_eq!(pos, stop, "children must fill the parent exactly");
    out
}

fn content<'a>(b: &'a [u8], t: &Tlv) -> &'a [u8] {
    &b[t.content_start..t.content_start + t.content_len]
}

fn raw<'a>(b: &'a [u8], t: &Tlv) -> &'a [u8] {
    &b[t.start..t.end]
}

/// Splits a certificate or request into (body-raw, signature bits).
fn split_signed(b: &[u8]) -> (Vec<u8>, Vec<u8>) {
    let outer = read_tlv(b, 0);
    assert_eq!(outer.tag, 0x30);
    assert_eq!(outer.end, b.len());
    let parts = children(b, &outer);
    assert_eq!(parts.len(), 3);
    assert_eq!(parts[0].tag, 0x30);
    assert_eq!(parts[1].tag, 0x30);
    assert_eq!(parts[2].tag, 0x03);
    let sig_content = content(b, &parts[2]);
    assert_eq!(sig_content[0], 0, "no unused bits in the signature BIT STRING");
    (raw(b, &parts[0]).to_vec(), sig_content[1..].to_vec())
}

/// The fields of a parsed to-be-signed certificate.
struct ParsedTbs {
    serial: u64,
    issuer: Vec<(Vec<u8>, String)>,
    validity: Vec<String>,
    subject: Vec<(Vec<u8>, String)>,
    public_key: Vec<u8>,
    extensions: Vec<(Vec<u8>, bool, Vec<u8>)>,
}

fn parse_name(b: &[u8], t: &Tlv) -> Vec<(Vec<u8>, String)> {
    assert_eq!(t.tag, 0x30);
    let mut out = Vec::new();
    for set in children(b, t) {
        assert_eq!(set.tag, 0x31);
        let inner = children(b, &set);
        assert_eq!(inner.len(), 1, "one attribute per set");
        assert_eq!(inner[0].tag, 0x30);
        let pair = children(b, &inner[0]);
        assert_eq!(pair.len(), 2);
        assert_eq!(pair[0].tag, 0x06);
        assert_eq!(pair[1].tag, 0x0C);
        let value = String::from_utf8(content(b, &pair[1]).to_vec()).unwrap();
        out.push((content(b, &pair[0]).to_vec(), value));
    }
    out
}

fn parse_tbs(b: &[u8]) -> ParsedTbs {
    let outer = read_tlv(b, 0);
    assert_eq!(outer.tag, 0x30);
    let parts = children(b, &outer);
    assert_eq!(parts.len(), 8);
    // Version: [0] { INTEGER 2 }.
    assert_eq!(parts[0].tag, 0xA0);
    assert_eq!(content(b, &parts[0]), &[0x02, 0x01, 0x02]);
    // Serial number.
    assert_eq!(parts[1].tag, 0x02);
    let mut serial: u64 = 0;
    for &d in content(b, &parts[1]) {
        serial = serial * 256 + d as u64;
    }
    // Signature algorithm identifier.
    assert_eq!(parts[2].tag, 0x30);
    let issuer = parse_name(b, &parts[3]);
    // Validity: two GeneralizedTime values.
    assert_eq!(parts[4].tag, 0x30);
    let mut validity = Vec::new();
    for gt in children(b, &parts[4]) {
        assert_eq!(gt.tag, 0x18);
        validity.push(String::from_utf8(content(b, &gt).to_vec()).unwrap());
    }
    let subject = parse_name(b, &parts[5]);
    // subjectPublicKeyInfo: algorithm identifier, then the key bits.
    assert_eq!(parts[6].tag, 0x30);
    let spki = children(b, &parts[6]);
    assert_eq!(spki.len(), 2);
    assert_eq!(spki[1].tag, 0x03);
    let pk_content = content(b, &spki[1]);
    assert_eq!(pk_content[0], 0);
    let public_key = pk_content[1..].to_vec();
    // Extensions under [3].
    assert_eq!(parts[7].tag, 0xA3);
    let ext_seq = children(b, &parts[7]);
    assert_eq!(ext_seq.len(), 1);
    assert_eq!(ext_seq[0].tag, 0x30);
    let mut extensions = Vec::new();
    for e in children(b, &ext_seq[0]) {
        assert_eq!(e.tag, 0x30);
        let fields = children(b, &e);
        assert_eq!(fields[0].tag, 0x06);
        let oid = content(b, &fields[0]).to_vec();
        let (critical, value_idx) = if fields.len() == 3 {
            assert_eq!(fields[1].tag, 0x01);
            assert_eq!(content(b, &fields[1]), &[0xFF]);
            (true, 2)
        } else {
            assert_eq!(fields.len(), 2);
            (false, 1)
        };
        assert_eq!(fields[value_idx].tag, 0x04);
        extensions.push((oid, critical, content(b, &fields[value_idx]).to_vec()));
    }
    ParsedTbs { serial, issuer, validity, subject, public_key, extensions }
}

const OID_CN: &[u8] = &[0x55, 0x04, 0x03];
const OID_O: &[u8] = &[0x55, 0x04, 0x0A];
const OID_C: &[u8] = &[0x55, 0x04, 0x06];
const OID_SAN: &[u8] = &[0x55, 0x1D, 0x11];
const OID_SKI: &[u8] = &[0x55, 0x1D, 0x0E];
const OID_BC: &[u8] = &[0x55, 0x1D, 0x13];

fn find_extension<'a>(
    exts: &'a [(Vec<u8>, bool, Vec<u8>)],
    oid: &[u8],
) -> Option<&'a (Vec<u8>, bool, Vec<u8>)> {
    exts.iter().find(|e| e.0 == oid)
}

fn make_cert(alg: SignatureAlgorithm, sans: Vec<String>) -> Certificate {
    let mut params = CertificateParams::new(sans);
    params.alg = alg;
    Certificate::from_params(params).unwrap()
}

fn verify_cert(der: &[u8], alg: &'static dyn ring::signature::VerificationAlgorithm) {
    let (tbs, sig) = split_signed(der);
    let parsed = parse_tbs(&tbs);
    let pk = ring::signature::UnparsedPublicKey::new(alg, parsed.public_key);
    pk.verify(&tbs, &sig).expect("the embedded public key must validate the signature");
}

#[test]
fn ed25519_self_signed_validates() {
    let cert = make_cert(SignatureAlgorithm::Ed25519, vec!["localhost".to_string()]);
    let der = cert.serialize_der().unwrap();
    verify_cert(&der, &ring::signature::ED25519);
    let (_, sig) = split_signed(&der);
    assert_eq!(sig.len(), 64, "Ed25519 signatures are 64 bytes");
}

#[test]
fn p256_self_signed_validates() {
    let cert = make_cert(SignatureAlgorithm::EcdsaP256Sha256, vec!["localhost".to_string()]);
    let der = cert.serialize_der().unwrap();
    verify_cert(&der, &ring::signature::ECDSA_P256_SHA256_ASN1);
    // The signature itself is a DER SEQUENCE of the two INTEGERs r, s.
    let (_, sig) = split_signed(&der);
    let outer = read_tlv(&sig, 0);
    assert_eq!(outer.tag, 0x30);
    assert_eq!(outer.end, sig.len());
    let ints = children(&sig, &outer);
    assert_eq!(ints.len(), 2);
    assert_eq!(ints[0].tag, 0x02);
    assert_eq!(ints[1].tag, 0x02);
}

#[test]
fn p384_self_signed_validates() {
    let cert = make_cert(SignatureAlgorithm::EcdsaP384Sha384, vec!["localhost".to_string()]);
    let der = cert.serialize_der().unwrap();
    verify_cert(&der, &ring::signature::ECDSA_P384_SHA384_ASN1);
}

#[test]
fn cross_signed_validates_against_issuer_key() {
    let mut ca_params = CertificateParams::new(Vec::new());
    ca_params.alg = SignatureAlgorithm::Ed25519;
    ca_params.is_ca = IsCa::Ca(BasicConstraints::Constrained(0));
    let mut dn = DistinguishedName::new();
    dn.push(DnType::CommonName, "issuing authority".to_string());
    ca_params.distinguished_name = dn;
    let ca = Certificate::from_params(ca_params).unwrap();
    let ca_der = ca.serialize_der().unwrap();
    let ca_pk = parse_tbs(&split_signed(&ca_der).0).public_key;

    let leaf = make_cert(SignatureAlgorithm::EcdsaP256Sha256, vec!["leaf.example".to_string()]);
    let leaf_der = leaf.serialize_der_with_signer(&ca).unwrap();
    let (tbs, sig) = split_signed(&leaf_der);
    let parsed = parse_tbs(&tbs);

    // The issuer name is the authority's, the subject stays the leaf's.
    assert_eq!(parsed.issuer, vec![(OID_CN.to_vec(), "issuing authority".to_string())]);
    assert_eq!(parsed.subject, vec![(OID_CN.to_vec(), "rcgen self signed cert".to_string())]);

    // It validates against the issuer's key.
    let issuer_key = ring::signature::UnparsedPublicKey::new(&ring::signature::ED25519, &ca_pk);
    issuer_key.verify(&tbs, &sig).expect("must validate against the issuer's key");

    // And not against the subject's own key.
    let subject_key = ring::signature::UnparsedPublicKey::new(
        &ring::signature::ECDSA_P256_SHA256_ASN1,
        &parsed.public_key,
    );
    assert!(subject_key.verify(&tbs, &sig).is_err());
}

#[test]
fn san_decodes_to_names_in_order() {
    let names = vec!["hello.world.example".to_string(), "localhost".to_string()];
    let cert = make_cert(SignatureAlgorithm::Ed25519, names.clone());
    let der = cert.serialize_der().unwrap();
    let parsed = parse_tbs(&split_signed(&der).0);
    let san = find_extension(&parsed.extensions, OID_SAN).expect("SAN must be present");
    assert!(!san.1, "the SAN extension is not critical");
    let value = read_tlv(&san.2, 0);
    assert_eq!(value.tag, 0x30);
    let entries = children(&san.2, &value);
    assert_eq!(entries.len(), names.len());
    for (entry, name) in entries.iter().zip(names.iter()) {
        assert_eq!(entry.tag, 0x82, "every entry is a dNSName");
        assert_eq!(content(&san.2, entry), name.as_bytes());
    }
}

#[test]
fn empty_san_list_still_yields_extension() {
    let cert = make_cert(SignatureAlgorithm::Ed25519, Vec::new());
    let der = cert.serialize_der().unwrap();
    let parsed = parse_tbs(&split_signed(&der).0);
    let san = find_extension(&parsed.extensions, OID_SAN).expect("SAN must be present");
    assert_eq!(san.2, vec![0x30, 0x00], "an empty SEQUENCE");
}

#[test]
fn constrained_ca_emits_both_fields() {
    let mut params = CertificateParams::new(Vec::new());
    params.alg = SignatureAlgorithm::Ed25519;
    params.is_ca = IsCa::Ca(BasicConstraints::Constrained(5));
    let cert = Certificate::from_params(params).unwrap();
    let der = cert.serialize_der().unwrap();
    let parsed = parse_tbs(&split_signed(&der).0);
    let bc = find_extension(&parsed.extensions, OID_BC).expect("Basic Constraints must be present");
    assert_eq!(bc.2, vec![0x30, 0x06, 0x01, 0x01, 0xFF, 0x02, 0x01, 0x05]);
    let ski = find_extension(&parsed.extensions, OID_SKI).expect("SKI must be present");
    // SHA-512 digest of the public key bytes, as configured for Ed25519.
    let tbs = split_signed(&der).0;
    let pk = parse_tbs(&tbs).public_key;
    let digest = ring::digest::digest(&ring::digest::SHA512, &pk);
    assert_eq!(ski.2, digest.as_ref());
}

#[test]
fn unconstrained_ca_omits_path_length() {
    let mut params = CertificateParams::new(Vec::new());
    params.alg = SignatureAlgorithm::Ed25519;
    params.is_ca = IsCa::Ca(BasicConstraints::Unconstrained);
    let cert = Certificate::from_params(params).unwrap();
    let der = cert.serialize_der().unwrap();
    let parsed = parse_tbs(&split_signed(&der).0);
    let bc = find_extension(&parsed.extensions, OID_BC).unwrap();
    assert_eq!(bc.2, vec![0x30, 0x03, 0x01, 0x01, 0xFF], "cA true and nothing else");
}

#[test]
fn non_ca_omits_ca_extensions() {
    let cert = make_cert(SignatureAlgorithm::Ed25519, vec!["localhost".to_string()]);
    let der = cert.serialize_der().unwrap();
    let parsed = parse_tbs(&split_signed(&der).0);
    assert!(find_extension(&parsed.extensions, OID_BC).is_none());
    assert!(find_extension(&parsed.extensions, OID_SKI).is_none());
    assert_eq!(parsed.extensions.len(), 1, "only the SAN extension");
}

#[test]
fn custom_extension_criticality_encoding() {
    let mut params = CertificateParams::new(Vec::new());
    params.alg = SignatureAlgorithm::Ed25519;
    let quiet = CustomExtension::from_oid_content(&[1, 2, 3, 4], vec![0x05, 0x00]);
    let mut loud = CustomExtension::from_oid_content(&[1, 2, 3, 5], vec![0x05, 0x00]);
    loud.set_criticality(true);
    params.custom_extensions = vec![quiet, loud];
    let cert = Certificate::from_params(params).unwrap();
    let der = cert.serialize_der().unwrap();
    let parsed = parse_tbs(&split_signed(&der).0);
    assert_eq!(parsed.extensions.len(), 3);
    // Declared order after the SAN extension, criticality as set.
    assert_eq!(parsed.extensions[1].0, vec![0x2A, 0x03, 0x04]);
    assert!(!parsed.extensions[1].1, "the default criticality field is omitted");
    assert_eq!(parsed.extensions[1].2, vec![0x05, 0x00]);
    assert_eq!(parsed.extensions[2].0, vec![0x2A, 0x03, 0x05]);
    assert!(parsed.extensions[2].1, "an explicit BOOLEAN true marks a critical extension");
    assert_eq!(parsed.extensions[2].2, vec![0x05, 0x00]);
}

#[test]
fn validity_never_carries_fractional_seconds() {
    let mut params = CertificateParams::new(Vec::new());
    params.alg = SignatureAlgorithm::Ed25519;
    // A leap-second style timestamp: nanoseconds far above a second.
    params.not_before = UtcDateTime::new(2016, 12, 31, 23, 59, 59, 1_500_000_000);
    params.not_after = UtcDateTime::new(2049, 1, 2, 3, 4, 5, 999_999);
    let cert = Certificate::from_params(params).unwrap();
    let der = cert.serialize_der().unwrap();
    let parsed = parse_tbs(&split_signed(&der).0);
    assert_eq!(parsed.validity, vec!["20161231235959Z".to_string(), "20490102030405Z".to_string()]);
    for v in &parsed.validity {
        assert!(!v.contains('.'), "no fractional-second component");
    }
}

#[test]
fn default_validity_window() {
    let cert = make_cert(SignatureAlgorithm::Ed25519, Vec::new());
    let der = cert.serialize_der().unwrap();
    let parsed = parse_tbs(&split_signed(&der).0);
    assert_eq!(parsed.validity, vec!["19750101000000Z".to_string(), "40960101000000Z".to_string()]);
}

#[test]
fn round_trip_serial_defaults_to_42() {
    let cert = make_cert(SignatureAlgorithm::Ed25519, Vec::new());
    let der = cert.serialize_der().unwrap();
    let parsed = parse_tbs(&split_signed(&der).0);
    assert_eq!(parsed.serial, 42);
}

#[test]
fn round_trip_serial_and_names() {
    let mut params = CertificateParams::new(vec!["crabs.crabs".to_string()]);
    params.alg = SignatureAlgorithm::EcdsaP256Sha256;
    params.serial_number = Some(123_456_789);
    let mut dn = DistinguishedName::new();
    dn.push(DnType::OrganizationName, "Crab widgits SE".to_string());
    dn.push(DnType::CommonName, "Master Cert".to_string());
    dn.push(DnType::CountryName, "DE".to_string());
    params.distinguished_name = dn;
    let cert = Certificate::from_params(params).unwrap();
    let der = cert.serialize_der().unwrap();
    let parsed = parse_tbs(&split_signed(&der).0);
    assert_eq!(parsed.serial, 123_456_789);
    let expected = vec![
        (OID_O.to_vec(), "Crab widgits SE".to_string()),
        (OID_CN.to_vec(), "Master Cert".to_string()),
        (OID_C.to_vec(), "DE".to_string()),
    ];
    assert_eq!(parsed.subject, expected, "insertion order is kept");
    assert_eq!(parsed.issuer, expected, "self-signed: issuer equals subject");
}

#[test]
fn dn_push_overwrites_existing_type_in_place() {
    let mut dn = DistinguishedName::new();
    dn.push(DnType::CommonName, "first".to_string());
    dn.push(DnType::OrganizationName, "org".to_string());
    dn.push(DnType::CommonName, "second".to_string());
    assert_eq!(dn.len(), 2);
    assert_eq!(dn.entry_at(0).0, DnType::CommonName);
    assert_eq!(dn.entry_at(0).1, "second");
    assert_eq!(dn.entry_at(1).0, DnType::OrganizationName);
    assert_eq!(dn.entry_at(1).1, "org");
}

#[test]
fn import_exported_key_and_resign() {
    let original = make_cert(SignatureAlgorithm::Ed25519, vec!["localhost".to_string()]);
    let original_pk = parse_tbs(&split_signed(&original.serialize_der().unwrap()).0).public_key;
    let exported = original.serialize_private_key_der();

    let imported = KeyPair::from_der(&exported).unwrap();
    assert_eq!(imported.serialize_der(), exported, "PKCS#8 bytes are kept verbatim");

    let mut params = CertificateParams::new(vec!["localhost".to_string()]);
    params.alg = SignatureAlgorithm::Ed25519;
    params.key_pair = Some(imported);
    let reborn = Certificate::from_params(params).unwrap();
    let der = reborn.serialize_der().unwrap();
    let (tbs, sig) = split_signed(&der);
    let key = ring::signature::UnparsedPublicKey::new(&ring::signature::ED25519, &original_pk);
    key.verify(&tbs, &sig).expect("must validate against the original key's public component");
}

#[test]
fn private_key_pem_round_trip() {
    let cert = make_cert(SignatureAlgorithm::EcdsaP256Sha256, Vec::new());
    let pem_text = cert.serialize_private_key_pem();
    let block = pem::parse(&pem_text).unwrap();
    assert_eq!(block.tag(), "PRIVATE KEY");
    assert_eq!(block.contents(), cert.serialize_private_key_der());

    let reloaded = KeyPair::from_pem(&pem_text).unwrap();
    assert_eq!(reloaded.serialize_der(), cert.serialize_private_key_der());
}

#[test]
fn certificate_pem_round_trip() {
    // Ed25519 signatures are deterministic, so the DER forms agree.
    let cert = make_cert(SignatureAlgorithm::Ed25519, vec!["localhost".to_string()]);
    let pem_text = cert.serialize_pem().unwrap();
    let block = pem::parse(&pem_text).unwrap();
    assert_eq!(block.tag(), "CERTIFICATE");
    assert_eq!(block.contents(), cert.serialize_der().unwrap());
}

#[test]
fn request_pem_and_signature() {
    let cert = make_cert(SignatureAlgorithm::Ed25519, vec!["req.example".to_string()]);
    let pem_text = cert.serialize_request_pem().unwrap();
    let block = pem::parse(&pem_text).unwrap();
    assert_eq!(block.tag(), "CERTIFICATE REQUEST");

    let der = cert.serialize_request_der().unwrap();
    let (info, sig) = split_signed(&der);
    // The request info: version 0, subject, key info, attributes.
    let outer = read_tlv(&info, 0);
    let parts = children(&info, &outer);
    assert_eq!(parts.len(), 4);
    assert_eq!(raw(&info, &parts[0]), &[0x02, 0x01, 0x00], "request version 0");
    assert_eq!(parts[1].tag, 0x30);
    assert_eq!(parts[2].tag, 0x30);
    assert_eq!(parts[3].tag, 0xA0);
    // The attribute set names pkcs-9-at-extensionRequest.
    let attr = children(&info, &parts[3]);
    assert_eq!(attr.len(), 1);
    let attr_fields = children(&info, &attr[0]);
    assert_eq!(attr_fields[0].tag, 0x06);
    assert_eq!(
        content(&info, &attr_fields[0]),
        &[0x2A, 0x86, 0x48, 0x86, 0xF7, 0x0D, 0x01, 0x09, 0x0E],
    );
    // The requester's own key signs the request.
    let spki = children(&info, &parts[2]);
    let pk_content = content(&info, &spki[1]);
    let key = ring::signature::UnparsedPublicKey::new(&ring::signature::ED25519, &pk_content[1..]);
    key.verify(&info, &sig).expect("the request is self-signed");
}

#[test]
fn rsa_key_generation_fails() {
    let generated = KeyPair::generate(&SignatureAlgorithm::RsaSha256);
    assert!(matches!(generated, Err(Error::RsaKeyGenerationUnavailable)));

    let mut params = CertificateParams::new(Vec::new());
    params.alg = SignatureAlgorithm::RsaSha256;
    let built = Certificate::from_params(params);
    assert!(matches!(built, Err(Error::RsaKeyGenerationUnavailable)));
}

#[test]
fn acme_identifier_digest_length() {
    assert!(matches!(
        CustomExtension::new_acme_identifier(&[0u8; 31]),
        Err(Error::InvalidAcmeDigestLength)
    ));
    assert!(matches!(
        CustomExtension::new_acme_identifier(&[0u8; 33]),
        Err(Error::InvalidAcmeDigestLength)
    ));
    assert!(matches!(
        CustomExtension::new_acme_identifier(&[]),
        Err(Error::InvalidAcmeDigestLength)
    ));

    let digest = [0xABu8; 32];
    let ext = CustomExtension::new_acme_identifier(&digest).unwrap();
    let mut params = CertificateParams::new(Vec::new());
    params.alg = SignatureAlgorithm::Ed25519;
    params.custom_extensions = vec![ext];
    let cert = Certificate::from_params(params).unwrap();
    let der = cert.serialize_der().unwrap();
    let parsed = parse_tbs(&split_signed(&der).0);
    let acme = &parsed.extensions[1];
    assert_eq!(acme.0, vec![0x2B, 0x06, 0x01, 0x05, 0x05, 0x07, 0x01, 0x1F]);
    assert!(acme.1, "the ACME identifier extension is critical");
    let mut expected = vec![0x04, 0x20];
    expected.extend_from_slice(&digest);
    assert_eq!(acme.2, expected, "the digest wrapped as an OCTET STRING");
}

#[test]
fn simple_self_signed_helper() {
    let names = vec!["hello.world.example".to_string(), "localhost".to_string()];
    let cert = generate_simple_self_signed(names).unwrap();
    let der = cert.serialize_der().unwrap();
    verify_cert(&der, &ring::signature::ECDSA_P256_SHA256_ASN1);
    let parsed = parse_tbs(&split_signed(&der).0);
    assert_eq!(parsed.serial, 42);
    assert_eq!(parsed.subject, vec![(OID_CN.to_vec(), "rcgen self signed cert".to_string())]);
}

#[test]
fn key_family_is_not_cross_checked_against_algorithm() {
    // The declared algorithm and an imported key's family are not
    // reconciled: a mismatched pair is accepted as-is.
    let donor = make_cert(SignatureAlgorithm::Ed25519, Vec::new());
    let imported = KeyPair::from_der(&donor.serialize_private_key_der()).unwrap();
    let mut params = CertificateParams::new(Vec::new());
    params.alg = SignatureAlgorithm::EcdsaP256Sha256;
    params.key_pair = Some(imported);
    let cert = Certificate::from_params(params).expect("no validation rejects the mismatch");
    let der = cert.serialize_der().unwrap();
    // The body declares ECDSA while the signature is an Ed25519 one,
    // so verification under the declared algorithm fails.
    let (tbs, sig) = split_signed(&der);
    let parsed = parse_tbs(&tbs);
    let key = ring::signature::UnparsedPublicKey::new(
        &ring::signature::ECDSA_P256_SHA256_ASN1,
        &parsed.public_key,
    );
    assert!(key.verify(&tbs, &sig).is_err());
}

#[test]
fn p256_subject_key_identifier_uses_sha256() {
    let mut params = CertificateParams::new(Vec::new());
    params.alg = SignatureAlgorithm::EcdsaP256Sha256;
    params.is_ca = IsCa::Ca(BasicConstraints::Unconstrained);
    let cert = Certificate::from_params(params).unwrap();
    let der = cert.serialize_der().unwrap();
    let parsed = parse_tbs(&split_signed(&der).0);
    let ski = find_extension(&parsed.extensions, OID_SKI).unwrap();
    let digest = ring::digest::digest(&ring::digest::SHA256, &parsed.public_key);
    assert_eq!(ski.2, digest.as_ref());
}

#[test]
fn unparseable_key_bytes_are_rejected() {
    let imported = KeyPair::from_der(&[0x01, 0x02, 0x03]);
    assert!(matches!(imported, Err(Error::CouldNotParseKeyPair)));
    let empty = KeyPair::from_der(&[]);
    assert!(matches!(empty, Err(Error::CouldNotParseKeyPair)));
}

#[test]
fn text_that_is_no_pem_is_rejected() {
    let loaded = KeyPair::from_pem("this is not a pem document");
    assert!(matches!(loaded, Err(Error::InvalidPem)));
}

#[test]
fn error_messages_name_the_failure() {
    let generated = KeyPair::generate(&SignatureAlgorithm::RsaSha256);
    let err = generated.err().unwrap();
    assert_eq!(err.message(), "no key generation available for RSA");
    assert_eq!(Error::CouldNotParseKeyPair.message(), "could not parse key pair");
}

#[test]
fn long_form_lengths_round_trip() {
    // Content beyond 127 bytes forces the multi-byte length form.
    let mut params = CertificateParams::new(Vec::new());
    params.alg = SignatureAlgorithm::Ed25519;
    let mut payload = vec![0x04, 0x81, 200];
    payload.extend(std::iter::repeat(0x5A).take(200));
    params.custom_extensions = vec![CustomExtension::from_oid_content(&[1, 2, 3, 4], payload.clone())];
    let cert = Certificate::from_params(params).unwrap();
    let der = cert.serialize_der().unwrap();
    let parsed = parse_tbs(&split_signed(&der).0);
    assert_eq!(parsed.extensions[1].2, payload);
}

#[test]
fn wide_serial_numbers_round_trip() {
    let mut params = CertificateParams::new(Vec::new());
    params.alg = SignatureAlgorithm::Ed25519;
    params.serial_number = Some(u64::MAX);
    let cert = Certificate::from_params(params).unwrap();
    let der = cert.serialize_der().unwrap();
    let parsed = parse_tbs(&split_signed(&der).0);
    assert_eq!(parsed.serial, u64::MAX);
}

#[test]
fn date_time_ymd_defaults_to_midnight() {
    let t = date_time_ymd(1975, 1, 1);
    let u = UtcDateTime::new(1975, 1, 1, 0, 0, 0, 0);
    assert_eq!(t, u);
}
