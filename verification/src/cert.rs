//! The to-be-signed certificate and request bodies, their extensions,
//! and the signed envelopes, all per the RFC 5280 and PKCS#10 field
//! order.

use vstd::prelude::*;
use crate::alg::{spec_alg_ident, spec_digest_algorithm, spec_spki_alg, DigestAlgorithm,
    SignatureAlgorithm};
use crate::crypto;
use crate::der;
use crate::error::Error;
use crate::keypair::{spec_matches_family, KeyPair};
use crate::oids;
use crate::params::{spec_dn_oid, BasicConstraints, CertificateParams, CustomExtension,
    DistinguishedName, DnType, IsCa};
use crate::pem_io;
use crate::time::{spec_generalized_time, UtcDateTime};

verus! {

/// Context tag 0, explicit (constructed): the certificate version, and
/// the request's attribute set.
pub const TAG_CONTEXT_0: u8 = 0xA0;
/// Context tag 3, explicit (constructed): the certificate extensions.
pub const TAG_CONTEXT_3: u8 = 0xA3;
/// Context tag 2, implicit (primitive): a dNSName general name.
pub const TAG_DNS_NAME: u8 = 0x82;

/// The views of a list of strings.
pub open spec fn spec_str_views(names: Seq<String>) -> Seq<Seq<char>> {
    names.map_values(|s: String| s@)
}

/// One distinguished name entry: a SET holding one SEQUENCE of the
/// attribute type's identifier and its value as a UTF8String.
pub open spec fn spec_name_entry(e: (DnType, Seq<char>)) -> Seq<u8> {
    der::spec_tlv(
        der::TAG_SET,
        der::spec_tlv(
            der::TAG_SEQUENCE,
            der::spec_oid(spec_dn_oid(e.0)) + der::spec_utf8_string(e.1),
        ),
    )
}

/// The concatenated entries of a Name, in insertion order.
pub open spec fn spec_name_entries(dn: Seq<(DnType, Seq<char>)>) -> Seq<u8>
    decreases dn.len(),
{
    if dn.len() == 0 {
        Seq::empty()
    } else {
        spec_name_entry(dn[0]) + spec_name_entries(dn.drop_first())
    }
}

/// A Name: a SEQUENCE of one SET per distinguished name entry.
pub open spec fn spec_name(dn: Seq<(DnType, Seq<char>)>) -> Seq<u8> {
    der::spec_tlv(der::TAG_SEQUENCE, spec_name_entries(dn))
}

/// One subject alternative name, as an implicitly tagged dNSName
/// holding the UTF-8 bytes of the name.
pub open spec fn spec_dns_name(s: Seq<char>) -> Seq<u8> {
    der::spec_tlv(TAG_DNS_NAME, vstd::utf8::encode_utf8(s))
}

/// The concatenated dNSName entries, in list order.
pub open spec fn spec_dns_names(names: Seq<Seq<char>>) -> Seq<u8>
    decreases names.len(),
{
    if names.len() == 0 {
        Seq::empty()
    } else {
        spec_dns_name(names[0]) + spec_dns_names(names.drop_first())
    }
}

/// The Subject Alternative Name extension value: a SEQUENCE of the
/// dNSName entries, empty when the name list is empty.
pub open spec fn spec_san_value(names: Seq<Seq<char>>) -> Seq<u8> {
    der::spec_tlv(der::TAG_SEQUENCE, spec_dns_names(names))
}

/// The whole Subject Alternative Name extension: its identifier and
/// its value wrapped as an OCTET STRING.
pub open spec fn spec_san_extension(names: Seq<Seq<char>>) -> Seq<u8> {
    der::spec_tlv(
        der::TAG_SEQUENCE,
        der::spec_oid(oids::spec_oid_subject_alt_name()) + der::spec_octet_string(
            spec_san_value(names),
        ),
    )
}

/// What the digest algorithm returns on the given bytes.
pub open spec fn spec_digest(alg: DigestAlgorithm, data: Seq<u8>) -> Seq<u8> {
    match alg {
        DigestAlgorithm::Sha256 => crypto::spec_sha256(data),
        DigestAlgorithm::Sha384 => crypto::spec_sha384(data),
        DigestAlgorithm::Sha512 => crypto::spec_sha512(data),
    }
}

/// The Subject Key Identifier extension: its identifier, and the
/// digest of the raw public key bytes under the algorithm's digest,
/// wrapped as an OCTET STRING.
pub open spec fn spec_ski_extension(alg: SignatureAlgorithm, pk: Seq<u8>) -> Seq<u8> {
    der::spec_tlv(
        der::TAG_SEQUENCE,
        der::spec_oid(oids::spec_oid_subject_key_identifier()) + der::spec_octet_string(
            spec_digest(spec_digest_algorithm(alg), pk),
        ),
    )
}

/// The Basic Constraints extension value: cA true, and the path
/// length only where constrained.
pub open spec fn spec_basic_constraints_value(bc: BasicConstraints) -> Seq<u8> {
    der::spec_tlv(
        der::TAG_SEQUENCE,
        der::spec_bool_true() + match bc {
            BasicConstraints::Unconstrained => Seq::<u8>::empty(),
            BasicConstraints::Constrained(k) => der::spec_uint(k as nat),
        },
    )
}

/// The whole Basic Constraints extension.
pub open spec fn spec_basic_constraints_extension(bc: BasicConstraints) -> Seq<u8> {
    der::spec_tlv(
        der::TAG_SEQUENCE,
        der::spec_oid(oids::spec_oid_basic_constraints()) + der::spec_octet_string(
            spec_basic_constraints_value(bc),
        ),
    )
}

/// One custom extension: its identifier, an explicit BOOLEAN true only
/// where critical (the DEFAULT FALSE field is omitted otherwise), and
/// its content as an OCTET STRING.
pub open spec fn spec_custom_extension(e: CustomExtension) -> Seq<u8> {
    der::spec_tlv(
        der::TAG_SEQUENCE,
        der::spec_oid(e@.oid) + (if e@.critical {
            der::spec_bool_true()
        } else {
            Seq::<u8>::empty()
        }) + der::spec_octet_string(e@.content),
    )
}

/// The concatenated custom extensions, in declared order.
pub open spec fn spec_custom_extensions(es: Seq<CustomExtension>) -> Seq<u8>
    decreases es.len(),
{
    if es.len() == 0 {
        Seq::empty()
    } else {
        spec_custom_extension(es[0]) + spec_custom_extensions(es.drop_first())
    }
}

/// The certificate's extension list: the Subject Alternative Name
/// always, the Subject Key Identifier and Basic Constraints only for a
/// CA, then each custom extension in declared order.
pub open spec fn spec_extensions(p: CertificateParams, pk: Seq<u8>) -> Seq<u8> {
    spec_san_extension(spec_str_views(p.subject_alt_names@)) + (match p.is_ca {
        IsCa::SelfSignedOnly => Seq::<u8>::empty(),
        IsCa::Ca(bc) => spec_ski_extension(p.alg, pk) + spec_basic_constraints_extension(bc),
    }) + spec_custom_extensions(p.custom_extensions@)
}

/// The serial number that is encoded: the given one, or 42 when unset.
pub open spec fn spec_serial(p: CertificateParams) -> u64 {
    match p.serial_number {
        Some(s) => s,
        None => 42,
    }
}

/// The validity window: a SEQUENCE of two GeneralizedTime values.
pub open spec fn spec_validity(nb: UtcDateTime, na: UtcDateTime) -> Seq<u8> {
    der::spec_tlv(der::TAG_SEQUENCE, spec_generalized_time(nb) + spec_generalized_time(na))
}

/// The subjectPublicKeyInfo: the public key algorithm's identifier and
/// the raw public key bytes as a BIT STRING.
pub open spec fn spec_spki(alg: SignatureAlgorithm, pk: Seq<u8>) -> Seq<u8> {
    der::spec_tlv(der::TAG_SEQUENCE, spec_spki_alg(alg) + der::spec_bit_string(pk))
}

/// The to-be-signed certificate fields after the serial number: the
/// signature algorithm, issuer Name, validity, subject Name,
/// subjectPublicKeyInfo, and the extensions under context tag 3.
pub open spec fn spec_tbs_cert_tail(
    p: CertificateParams,
    issuer_dn: Seq<(DnType, Seq<char>)>,
    pk: Seq<u8>,
) -> Seq<u8> {
    spec_alg_ident(p.alg) + spec_name(issuer_dn) + spec_validity(p.not_before, p.not_after)
        + spec_name(p.distinguished_name@) + spec_spki(p.alg, pk) + der::spec_tlv(
        TAG_CONTEXT_3,
        der::spec_tlv(der::TAG_SEQUENCE, spec_extensions(p, pk)),
    )
}

/// The content of the to-be-signed certificate body: version v3, the
/// serial number, and the remaining fields in order.
pub open spec fn spec_tbs_cert_content(
    p: CertificateParams,
    issuer_dn: Seq<(DnType, Seq<char>)>,
    pk: Seq<u8>,
) -> Seq<u8> {
    der::spec_tlv(TAG_CONTEXT_0, der::spec_uint(2)) + der::spec_uint(spec_serial(p) as nat)
        + spec_alg_ident(p.alg) + spec_name(issuer_dn) + spec_validity(p.not_before, p.not_after)
        + spec_name(p.distinguished_name@) + spec_spki(p.alg, pk) + der::spec_tlv(
        TAG_CONTEXT_3,
        der::spec_tlv(der::TAG_SEQUENCE, spec_extensions(p, pk)),
    )
}

/// The to-be-signed certificate body: one SEQUENCE of its fields.
pub open spec fn spec_tbs_cert(
    p: CertificateParams,
    issuer_dn: Seq<(DnType, Seq<char>)>,
    pk: Seq<u8>,
) -> Seq<u8> {
    der::spec_tlv(der::TAG_SEQUENCE, spec_tbs_cert_content(p, issuer_dn, pk))
}

/// The certification request info body: version 0, subject Name,
/// subjectPublicKeyInfo, and an attribute set under context tag 0
/// holding one extensionRequest attribute whose set holds the
/// requested extensions, here the Subject Alternative Name.
pub open spec fn spec_csr_info(p: CertificateParams, pk: Seq<u8>) -> Seq<u8> {
    der::spec_tlv(
        der::TAG_SEQUENCE,
        der::spec_uint(0) + spec_name(p.distinguished_name@) + spec_spki(p.alg, pk)
            + der::spec_tlv(
            TAG_CONTEXT_0,
            der::spec_tlv(
                der::TAG_SEQUENCE,
                der::spec_oid(oids::spec_oid_extension_request()) + der::spec_tlv(
                    der::TAG_SET,
                    der::spec_tlv(
                        der::TAG_SEQUENCE,
                        spec_san_extension(spec_str_views(p.subject_alt_names@)),
                    ),
                ),
            ),
        ),
    )
}

/// A signed envelope: the body, the signature algorithm identifier,
/// and the signature as a BIT STRING, in one SEQUENCE.
pub open spec fn spec_signed(body: Seq<u8>, alg: SignatureAlgorithm, sig: Seq<u8>) -> Seq<u8> {
    der::spec_tlv(der::TAG_SEQUENCE, body + spec_alg_ident(alg) + der::spec_bit_string(sig))
}

/// The whole certificate: the to-be-signed body under its issuer name
/// and public key, wrapped with the algorithm identifier and a
/// signature.
pub open spec fn spec_certificate_der(
    p: CertificateParams,
    issuer_dn: Seq<(DnType, Seq<char>)>,
    pk: Seq<u8>,
    sig: Seq<u8>,
) -> Seq<u8> {
    spec_signed(spec_tbs_cert(p, issuer_dn, pk), p.alg, sig)
}

/// The whole certificate signing request.
pub open spec fn spec_csr_der(p: CertificateParams, pk: Seq<u8>, sig: Seq<u8>) -> Seq<u8> {
    spec_signed(spec_csr_info(p, pk), p.alg, sig)
}

/// Appending one entry to a Name appends its encoding.
proof fn lemma_name_entries_snoc(dn: Seq<(DnType, Seq<char>)>, e: (DnType, Seq<char>))
    ensures
        spec_name_entries(dn.push(e)) == spec_name_entries(dn) + spec_name_entry(e),
    decreases dn.len(),
{
    if dn.len() == 0 {
        assert(dn.push(e).drop_first() =~= Seq::<(DnType, Seq<char>)>::empty());
        assert(spec_name_entries(dn.push(e)) =~= spec_name_entries(dn) + spec_name_entry(e));
    } else {
        assert(dn.push(e).drop_first() =~= dn.drop_first().push(e));
        assert(dn.push(e)[0] == dn[0]);
        lemma_name_entries_snoc(dn.drop_first(), e);
        assert(spec_name_entries(dn.push(e)) == spec_name_entry(dn.push(e)[0])
            + spec_name_entries(dn.push(e).drop_first()));
        assert(spec_name_entries(dn) == spec_name_entry(dn[0]) + spec_name_entries(
            dn.drop_first(),
        ));
        assert(spec_name_entries(dn.push(e)) =~= spec_name_entries(dn) + spec_name_entry(e));
    }
}

/// Appending one name to a dNSName run appends its encoding.
proof fn lemma_dns_names_snoc(names: Seq<Seq<char>>, s: Seq<char>)
    ensures
        spec_dns_names(names.push(s)) == spec_dns_names(names) + spec_dns_name(s),
    decreases names.len(),
{
    if names.len() == 0 {
        assert(names.push(s).drop_first() =~= Seq::<Seq<char>>::empty());
        assert(names.push(s)[0] == s);
        assert(spec_dns_names(names.push(s)) == spec_dns_name(names.push(s)[0]) + spec_dns_names(
            names.push(s).drop_first(),
        ));
        assert(spec_dns_names(names.push(s)) =~= spec_dns_names(names) + spec_dns_name(s));
    } else {
        assert(names.push(s).drop_first() =~= names.drop_first().push(s));
        assert(names.push(s)[0] == names[0]);
        lemma_dns_names_snoc(names.drop_first(), s);
        assert(spec_dns_names(names.push(s)) == spec_dns_name(names.push(s)[0]) + spec_dns_names(
            names.push(s).drop_first(),
        ));
        assert(spec_dns_names(names) == spec_dns_name(names[0]) + spec_dns_names(
            names.drop_first(),
        ));
        assert(spec_dns_names(names.push(s)) =~= spec_dns_names(names) + spec_dns_name(s));
    }
}

/// Appending one extension to a custom extension run appends its
/// encoding.
proof fn lemma_custom_extensions_snoc(es: Seq<CustomExtension>, e: CustomExtension)
    ensures
        spec_custom_extensions(es.push(e)) == spec_custom_extensions(es) + spec_custom_extension(
            e,
        ),
    decreases es.len(),
{
    if es.len() == 0 {
        assert(es.push(e).drop_first() =~= Seq::<CustomExtension>::empty());
        assert(es.push(e)[0] == e);
        assert(spec_custom_extensions(es.push(e)) == spec_custom_extension(es.push(e)[0])
            + spec_custom_extensions(es.push(e).drop_first()));
        assert(spec_custom_extensions(es.push(e)) =~= spec_custom_extensions(es)
            + spec_custom_extension(e));
    } else {
        assert(es.push(e).drop_first() =~= es.drop_first().push(e));
        assert(es.push(e)[0] == es[0]);
        lemma_custom_extensions_snoc(es.drop_first(), e);
        assert(spec_custom_extensions(es.push(e)) == spec_custom_extension(es.push(e)[0])
            + spec_custom_extensions(es.push(e).drop_first()));
        assert(spec_custom_extensions(es) == spec_custom_extension(es[0])
            + spec_custom_extensions(es.drop_first()));
        assert(spec_custom_extensions(es.push(e)) =~= spec_custom_extensions(es)
            + spec_custom_extension(e));
    }
}

/// Encodes a Name from a distinguished name.
fn der_name(dn: &DistinguishedName) -> (r: Vec<u8>)
    ensures
        r@ == spec_name(dn@),
{
    let mut content: Vec<u8> = Vec::new();
    let n = dn.len();
    for i in 0..n
        invariant
            n == dn@.len(),
            content@ == spec_name_entries(dn@.subrange(0, i as int)),
    {
        let e = dn.entry_at(i);
        let oid = e.0.to_oid();
        let mut inner = der::der_oid(oid.as_slice());
        let mut value = der::der_utf8_string(e.1.as_str());
        inner.append(&mut value);
        let one_seq = der::wrap(der::TAG_SEQUENCE, inner);
        let mut one_set = der::wrap(der::TAG_SET, one_seq);
        content.append(&mut one_set);
        proof {
            assert(dn@.subrange(0, i as int).push(dn@[i as int]) =~= dn@.subrange(0, i + 1));
            lemma_name_entries_snoc(dn@.subrange(0, i as int), dn@[i as int]);
        }
    }
    proof {
        assert(dn@.subrange(0, n as int) =~= dn@);
    }
    der::wrap(der::TAG_SEQUENCE, content)
}

/// Encodes the Subject Alternative Name extension from the name list.
fn der_san_extension(names: &Vec<String>) -> (r: Vec<u8>)
    ensures
        r@ == spec_san_extension(spec_str_views(names@)),
{
    let mut inner: Vec<u8> = Vec::new();
    let n = names.len();
    for i in 0..n
        invariant
            n == names@.len(),
            inner@ == spec_dns_names(spec_str_views(names@.subrange(0, i as int))),
    {
        let mut utf8: Vec<u8> = Vec::new();
        der::push_bytes(&mut utf8, names[i].as_str().as_bytes());
        let mut entry = der::wrap(TAG_DNS_NAME, utf8);
        inner.append(&mut entry);
        proof {
            assert(spec_str_views(names@.subrange(0, i as int)).push(names@[i as int]@)
                =~= spec_str_views(names@.subrange(0, i + 1)));
            lemma_dns_names_snoc(
                spec_str_views(names@.subrange(0, i as int)),
                names@[i as int]@,
            );
        }
    }
    proof {
        assert(names@.subrange(0, n as int) =~= names@);
    }
    let value = der::wrap(der::TAG_SEQUENCE, inner);
    let oid = oids::oid_subject_alt_name();
    let mut content = der::der_oid(oid.as_slice());
    let mut value_octets = der::der_octet_string(value.as_slice());
    content.append(&mut value_octets);
    der::wrap(der::TAG_SEQUENCE, content)
}

/// Digests bytes with the given digest algorithm.
fn digest_bytes(alg: DigestAlgorithm, data: &[u8]) -> (r: Vec<u8>)
    ensures
        r@ == spec_digest(alg, data@),
{
    match alg {
        DigestAlgorithm::Sha256 => crypto::sha256(data),
        DigestAlgorithm::Sha384 => crypto::sha384(data),
        DigestAlgorithm::Sha512 => crypto::sha512(data),
    }
}

/// Encodes the Subject Key Identifier extension.
fn der_ski_extension(alg: &SignatureAlgorithm, pk: &Vec<u8>) -> (r: Vec<u8>)
    ensures
        r@ == spec_ski_extension(*alg, pk@),
{
    let digest = digest_bytes(alg.digest_algorithm(), pk.as_slice());
    let oid = oids::oid_subject_key_identifier();
    let mut content = der::der_oid(oid.as_slice());
    let mut digest_octets = der::der_octet_string(digest.as_slice());
    content.append(&mut digest_octets);
    der::wrap(der::TAG_SEQUENCE, content)
}

/// Encodes the Basic Constraints extension.
fn der_basic_constraints_extension(bc: &BasicConstraints) -> (r: Vec<u8>)
    ensures
        r@ == spec_basic_constraints_extension(*bc),
{
    let mut value_content: Vec<u8> = Vec::new();
    der::push_bool_true(&mut value_content);
    match bc {
        BasicConstraints::Unconstrained => {},
        BasicConstraints::Constrained(k) => {
            let mut path_len = der::der_uint(*k as u64);
            value_content.append(&mut path_len);
        },
    }
    assert(value_content@ =~= der::spec_bool_true() + match *bc {
        BasicConstraints::Unconstrained => Seq::<u8>::empty(),
        BasicConstraints::Constrained(k) => der::spec_uint(k as nat),
    });
    let value = der::wrap(der::TAG_SEQUENCE, value_content);
    let oid = oids::oid_basic_constraints();
    let mut content = der::der_oid(oid.as_slice());
    let mut value_octets = der::der_octet_string(value.as_slice());
    content.append(&mut value_octets);
    der::wrap(der::TAG_SEQUENCE, content)
}

/// Encodes one custom extension.
fn der_custom_extension(e: &CustomExtension) -> (r: Vec<u8>)
    ensures
        r@ == spec_custom_extension(*e),
{
    let oid = e.oid_arcs();
    let mut content = der::der_oid(oid.as_slice());
    if e.is_critical() {
        der::push_bool_true(&mut content);
    }
    let mut value_octets = der::der_octet_string(e.content_bytes().as_slice());
    content.append(&mut value_octets);
    proof {
        assert(content@ =~= der::spec_oid(e@.oid) + (if e@.critical {
            der::spec_bool_true()
        } else {
            Seq::<u8>::empty()
        }) + der::spec_octet_string(e@.content));
    }
    der::wrap(der::TAG_SEQUENCE, content)
}

/// Encodes the certificate's extension list content, in its fixed
/// order.
fn der_extensions(p: &CertificateParams, pk: &Vec<u8>) -> (r: Vec<u8>)
    ensures
        r@ == spec_extensions(*p, pk@),
{
    let mut out = der_san_extension(&p.subject_alt_names);
    match &p.is_ca {
        IsCa::SelfSignedOnly => {},
        IsCa::Ca(bc) => {
            let mut ski = der_ski_extension(&p.alg, pk);
            out.append(&mut ski);
            let mut basic = der_basic_constraints_extension(bc);
            out.append(&mut basic);
        },
    }
    let ghost fixed = out@;
    let n = p.custom_extensions.len();
    for i in 0..n
        invariant
            n == p.custom_extensions@.len(),
            out@ == fixed + spec_custom_extensions(p.custom_extensions@.subrange(0, i as int)),
    {
        let mut one = der_custom_extension(&p.custom_extensions[i]);
        out.append(&mut one);
        proof {
            assert(p.custom_extensions@.subrange(0, i as int).push(
                p.custom_extensions@[i as int],
            ) =~= p.custom_extensions@.subrange(0, i + 1));
            lemma_custom_extensions_snoc(
                p.custom_extensions@.subrange(0, i as int),
                p.custom_extensions@[i as int],
            );
        }
    }
    proof {
        assert(p.custom_extensions@.subrange(0, n as int) =~= p.custom_extensions@);
        assert(out@ =~= spec_extensions(*p, pk@));
    }
    out
}

proof fn lemma_dns_names_flatten(names: Seq<Seq<char>>)
    ensures
        spec_dns_names(names) == names.map_values(|s: Seq<char>| spec_dns_name(s)).flatten(),
    decreases names.len(),
{
    let entries = names.map_values(|s: Seq<char>| spec_dns_name(s));
    if names.len() == 0 {
        assert(entries =~= Seq::<Seq<u8>>::empty());
        assert(entries.flatten() =~= Seq::<u8>::empty());
        assert(spec_dns_names(names) =~= entries.flatten());
    } else {
        lemma_dns_names_flatten(names.drop_first());
        assert(names.drop_first().map_values(|s: Seq<char>| spec_dns_name(s))
            =~= entries.drop_first());
        assert(entries.flatten() == entries.first() + entries.drop_first().flatten());
        assert(entries.first() == spec_dns_name(names[0]));
        assert(spec_dns_names(names) == spec_dns_name(names[0]) + spec_dns_names(
            names.drop_first(),
        ));
        assert(spec_dns_names(names) =~= entries.flatten());
    }
}

/// The Subject Alternative Name extension value lists, in input
/// order, exactly one dNSName entry per name: its content is the
/// flattening of the entry sequence whose length is the number of
/// names and whose entry at each index is the dNSName encoding of the
/// name at that index. An empty name list still yields the extension,
/// with an empty SEQUENCE as its value.
pub proof fn lemma_san_entries(names: Seq<Seq<char>>)
    ensures
        names.map_values(|s: Seq<char>| spec_dns_name(s)).len() == names.len(),
        forall|i: int|
            0 <= i < names.len() ==> names.map_values(|s: Seq<char>| spec_dns_name(s))[i]
                == spec_dns_name(names[i]),
        spec_san_value(names) == der::spec_tlv(
            der::TAG_SEQUENCE,
            names.map_values(|s: Seq<char>| spec_dns_name(s)).flatten(),
        ),
        names.len() == 0 ==> spec_san_value(names) == seq![0x30u8, 0x00u8],
    decreases names.len(),
{
    lemma_dns_names_flatten(names);
    if names.len() == 0 {
        assert(spec_dns_names(names) =~= Seq::<u8>::empty());
        assert(spec_san_value(names) =~= seq![0x30u8, 0x00u8]);
    }
}

/// The Subject Alternative Name value decodes to exactly one dNSName
/// entry per name, in input order: reading its content back as a run
/// of triples yields the list whose entry at each index is the
/// dNSName tag with the UTF-8 bytes of the name at that index.
pub proof fn lemma_san_value_decodes(names: Seq<Seq<char>>)
    requires
        forall|i: int|
            0 <= i < names.len() ==> (#[trigger] vstd::utf8::encode_utf8(names[i])).len()
                <= u64::MAX,
    ensures
        der::spec_parse_tlv_list(spec_dns_names(names)) == Some(
            names.map_values(|s: Seq<char>| (TAG_DNS_NAME, vstd::utf8::encode_utf8(s))),
        ),
    decreases names.len(),
{
    let m = names.map_values(|s: Seq<char>| (TAG_DNS_NAME, vstd::utf8::encode_utf8(s)));
    if names.len() == 0 {
        assert(spec_dns_names(names) =~= Seq::<u8>::empty());
        assert(m =~= Seq::<(u8, Seq<u8>)>::empty());
    } else {
        let utf8 = vstd::utf8::encode_utf8(names[0]);
        let rest = spec_dns_names(names.drop_first());
        assert(spec_dns_names(names) == spec_dns_name(names[0]) + rest);
        der::lemma_parse_tlv(TAG_DNS_NAME, utf8, rest);
        der::lemma_tlv_len(TAG_DNS_NAME, utf8);
        assert(forall|i: int|
            0 <= i < names.drop_first().len() ==> (#[trigger] vstd::utf8::encode_utf8(
                names.drop_first()[i],
            )).len() <= u64::MAX);
        lemma_san_value_decodes(names.drop_first());
        assert(names.drop_first().map_values(
            |s: Seq<char>| (TAG_DNS_NAME, vstd::utf8::encode_utf8(s)),
        ) =~= m.drop_first());
        assert(rest.len() < spec_dns_names(names).len());
        assert(der::spec_parse_tlv_list(spec_dns_names(names)) == Some(
            seq![(TAG_DNS_NAME, utf8)] + m.drop_first(),
        ));
        assert(seq![(TAG_DNS_NAME, utf8)] + m.drop_first() =~= m);
    }
}

/// Re-reading a serialized certificate recovers its structure: the
/// outer SEQUENCE holds exactly the to-be-signed body, the algorithm
/// identifier and the signature bits; the body's SEQUENCE content
/// starts with the version field and then the serial number, whose
/// octets read back as the set serial, or 42 where none was set; and
/// the fields after it follow unchanged.
#[verifier::rlimit(100)]
pub proof fn lemma_certificate_der_parses(
    p: CertificateParams,
    issuer_dn: Seq<(DnType, Seq<char>)>,
    pk: Seq<u8>,
    sig: Seq<u8>,
)
    requires
        (spec_tbs_cert(p, issuer_dn, pk) + spec_alg_ident(p.alg) + der::spec_bit_string(
            sig,
        )).len() <= u64::MAX,
        spec_tbs_cert_content(p, issuer_dn, pk).len() <= u64::MAX,
    ensures
        der::spec_parse_tlv(spec_certificate_der(p, issuer_dn, pk, sig)) == Some(
            (
                der::TAG_SEQUENCE,
                spec_tbs_cert(p, issuer_dn, pk) + spec_alg_ident(p.alg) + der::spec_bit_string(
                    sig,
                ),
                Seq::<u8>::empty(),
            ),
        ),
        der::spec_parse_tlv(
            spec_tbs_cert(p, issuer_dn, pk) + spec_alg_ident(p.alg) + der::spec_bit_string(sig),
        ) == Some(
            (
                der::TAG_SEQUENCE,
                spec_tbs_cert_content(p, issuer_dn, pk),
                spec_alg_ident(p.alg) + der::spec_bit_string(sig),
            ),
        ),
        der::spec_parse_tlv(spec_tbs_cert_content(p, issuer_dn, pk)) == Some(
            (
                TAG_CONTEXT_0,
                der::spec_uint(2),
                der::spec_uint(spec_serial(p) as nat) + spec_tbs_cert_tail(p, issuer_dn, pk),
            ),
        ),
        der::spec_parse_tlv(
            der::spec_uint(spec_serial(p) as nat) + spec_tbs_cert_tail(p, issuer_dn, pk),
        ) == Some(
            (
                der::TAG_INTEGER,
                der::spec_uint_content(spec_serial(p) as nat),
                spec_tbs_cert_tail(p, issuer_dn, pk),
            ),
        ),
        der::spec_be_value(der::spec_uint_content(spec_serial(p) as nat)) == spec_serial(p),
        p.serial_number is None ==> spec_serial(p) == 42,
{
    let ai = spec_alg_ident(p.alg);
    let bs = der::spec_bit_string(sig);
    let tbs = spec_tbs_cert(p, issuer_dn, pk);
    let tbsc = spec_tbs_cert_content(p, issuer_dn, pk);
    let tail = spec_tbs_cert_tail(p, issuer_dn, pk);
    let serial = spec_serial(p);
    let ver = der::spec_tlv(TAG_CONTEXT_0, der::spec_uint(2));
    let ser = der::spec_uint(serial as nat);
    let head = ver + ser;
    let f1 = spec_alg_ident(p.alg);
    let f2 = spec_name(issuer_dn);
    let f3 = spec_validity(p.not_before, p.not_after);
    let f4 = spec_name(p.distinguished_name@);
    let f5 = spec_spki(p.alg, pk);
    let f6 = der::spec_tlv(TAG_CONTEXT_3, der::spec_tlv(der::TAG_SEQUENCE, spec_extensions(p, pk)));

    // Regroup the flat field run as head + tail.
    der::lemma_add_assoc(head, f1, f2);
    der::lemma_add_assoc(head, f1 + f2, f3);
    der::lemma_add_assoc(head, f1 + f2 + f3, f4);
    der::lemma_add_assoc(head, f1 + f2 + f3 + f4, f5);
    der::lemma_add_assoc(head, f1 + f2 + f3 + f4 + f5, f6);
    assert(tbsc == head + tail);

    der::lemma_parse_tlv(der::TAG_SEQUENCE, tbs + ai + bs, Seq::empty());
    der::lemma_add_empty(der::spec_tlv(der::TAG_SEQUENCE, tbs + ai + bs));

    der::lemma_parse_tlv(der::TAG_SEQUENCE, tbsc, ai + bs);
    der::lemma_add_assoc(tbs, ai, bs);

    der::lemma_uint_len(2);
    der::lemma_parse_tlv(TAG_CONTEXT_0, der::spec_uint(2), ser + tail);
    der::lemma_add_assoc(ver, ser, tail);
    assert(tbsc == ver + (ser + tail));

    der::lemma_uint_content_value(serial);
    der::lemma_parse_tlv(der::TAG_INTEGER, der::spec_uint_content(serial as nat), tail);
}

/// The Basic Constraints policy: a constrained CA encodes cA true
/// followed by the path length as an INTEGER; an unconstrained CA
/// encodes cA true alone, with no second field; and a certificate
/// that is no CA emits neither Basic Constraints nor a Subject Key
/// Identifier — its extension list holds only the Subject Alternative
/// Name and the custom extensions.
pub proof fn lemma_basic_constraints_policy(p: CertificateParams, pk: Seq<u8>, k: u8)
    ensures
        spec_basic_constraints_value(BasicConstraints::Constrained(k)) == der::spec_tlv(
            der::TAG_SEQUENCE,
            der::spec_bool_true() + der::spec_uint(k as nat),
        ),
        spec_basic_constraints_value(BasicConstraints::Unconstrained) == der::spec_tlv(
            der::TAG_SEQUENCE,
            der::spec_bool_true(),
        ),
        p.is_ca == IsCa::SelfSignedOnly ==> spec_extensions(p, pk) == spec_san_extension(
            spec_str_views(p.subject_alt_names@),
        ) + spec_custom_extensions(p.custom_extensions@),
{
    assert(der::spec_bool_true() + Seq::<u8>::empty() =~= der::spec_bool_true());
    if p.is_ca == IsCa::SelfSignedOnly {
        assert(spec_extensions(p, pk) =~= spec_san_extension(
            spec_str_views(p.subject_alt_names@),
        ) + spec_custom_extensions(p.custom_extensions@));
    }
}

/// The criticality of a custom extension: a critical extension
/// carries an explicit BOOLEAN true between its identifier and its
/// content, and a non-critical one omits the field entirely rather
/// than encoding false.
pub proof fn lemma_custom_extension_criticality(e: CustomExtension)
    ensures
        e@.critical ==> spec_custom_extension(e) == der::spec_tlv(
            der::TAG_SEQUENCE,
            der::spec_oid(e@.oid) + der::spec_bool_true() + der::spec_octet_string(e@.content),
        ),
        !e@.critical ==> spec_custom_extension(e) == der::spec_tlv(
            der::TAG_SEQUENCE,
            der::spec_oid(e@.oid) + der::spec_octet_string(e@.content),
        ),
{
    if e@.critical {
        assert(der::spec_oid(e@.oid) + der::spec_bool_true() + der::spec_octet_string(e@.content)
            =~= der::spec_oid(e@.oid) + (if e@.critical {
            der::spec_bool_true()
        } else {
            Seq::<u8>::empty()
        }) + der::spec_octet_string(e@.content));
    } else {
        assert(der::spec_oid(e@.oid) + der::spec_octet_string(e@.content) =~= der::spec_oid(e@.oid)
            + (if e@.critical {
            der::spec_bool_true()
        } else {
            Seq::<u8>::empty()
        }) + der::spec_octet_string(e@.content));
    }
}

/// The parameter fields a certificate keeps from the parameters it
/// was built from; the key pair slot is emptied into the certificate.
pub open spec fn spec_params_kept(c: CertificateParams, p: CertificateParams) -> bool {
    &&& c.alg == p.alg
    &&& c.not_before == p.not_before
    &&& c.not_after == p.not_after
    &&& c.serial_number == p.serial_number
    &&& c.subject_alt_names == p.subject_alt_names
    &&& c.distinguished_name@ == p.distinguished_name@
    &&& c.is_ca == p.is_ca
    &&& c.custom_extensions == p.custom_extensions
    &&& c.key_pair is None
}

/// A certificate together with its signing key; immutable once
/// constructed.
pub struct Certificate {
    params: CertificateParams,
    key_pair: KeyPair,
}

impl Certificate {
    /// The parameters the certificate was built from, with the key
    /// pair slot emptied.
    pub closed spec fn spec_params(&self) -> CertificateParams {
        self.params
    }

    /// The certificate's key pair.
    pub closed spec fn spec_key(&self) -> KeyPair {
        self.key_pair
    }

    /// Generates a new certificate from the given parameters, taking
    /// the supplied key pair or generating a fresh one for the
    /// parameters' algorithm. With a supplied key pair this cannot
    /// fail; generation fails for RSA, which supports only import,
    /// and otherwise only when the provider does.
    pub fn from_params(params: CertificateParams) -> (r: Result<Certificate, Error>)
        ensures
            params.key_pair is Some ==> r is Ok,
            r is Ok ==> spec_params_kept(r.unwrap().spec_params(), params),
            r is Ok ==> (match params.key_pair {
                Some(kp) => r.unwrap().spec_key() == kp,
                None => spec_matches_family(&r.unwrap().spec_key(), params.alg)
                    && crate::keypair::spec_parses_back(&r.unwrap().spec_key()),
            }),
            params.key_pair is None && params.alg is RsaSha256 ==> r == Err::<Certificate, Error>(
                Error::RsaKeyGenerationUnavailable,
            ),
            r == Err::<Certificate, Error>(Error::RsaKeyGenerationUnavailable)
                ==> params.alg is RsaSha256,
            r is Err ==> r == Err::<Certificate, Error>(Error::RsaKeyGenerationUnavailable) || r
                == Err::<Certificate, Error>(Error::KeyGenerationFailed),
    {
        let CertificateParams {
            alg,
            not_before,
            not_after,
            serial_number,
            subject_alt_names,
            distinguished_name,
            is_ca,
            custom_extensions,
            key_pair,
        } = params;
        let kp = match key_pair {
            Some(kp) => kp,
            None => match KeyPair::generate(&alg) {
                Ok(kp) => kp,
                Err(e) => {
                    return Err(e);
                },
            },
        };
        Ok(
            Certificate {
                params: CertificateParams {
                    alg,
                    not_before,
                    not_after,
                    serial_number,
                    subject_alt_names,
                    distinguished_name,
                    is_ca,
                    custom_extensions,
                    key_pair: None,
                },
                key_pair: kp,
            },
        )
    }

    /// Encodes the to-be-signed certificate body, with the issuer
    /// Name taken from `ca` and everything else from this
    /// certificate.
    #[verifier::rlimit(100)]
    fn tbs_der(&self, ca: &Certificate) -> (r: Vec<u8>)
        ensures
            r@ == spec_tbs_cert(
                self.spec_params(),
                ca.spec_params().distinguished_name@,
                self.spec_key().spec_public_key(),
            ),
    {
        let mut body = der::wrap(TAG_CONTEXT_0, der::der_uint(2));
        let serial = match self.params.serial_number {
            Some(s) => s,
            None => 42,
        };
        let mut serial_der = der::der_uint(serial);
        body.append(&mut serial_der);
        let mut alg_ident = self.params.alg.der_alg_ident();
        body.append(&mut alg_ident);
        let mut issuer = der_name(&ca.params.distinguished_name);
        body.append(&mut issuer);
        let not_before = self.params.not_before.normalized();
        let not_after = self.params.not_after.normalized();
        let mut validity_content = crate::time::der_generalized_time(&not_before);
        let mut na_der = crate::time::der_generalized_time(&not_after);
        validity_content.append(&mut na_der);
        let mut validity = der::wrap(der::TAG_SEQUENCE, validity_content);
        body.append(&mut validity);
        let mut subject = der_name(&self.params.distinguished_name);
        body.append(&mut subject);
        let pk = self.key_pair.public_key();
        let mut spki_content = self.params.alg.der_spki_alg();
        let mut pk_bits = der::der_bit_string(pk.as_slice());
        spki_content.append(&mut pk_bits);
        let mut spki = der::wrap(der::TAG_SEQUENCE, spki_content);
        body.append(&mut spki);
        let ext_content = der_extensions(&self.params, pk);
        let ext_seq = der::wrap(der::TAG_SEQUENCE, ext_content);
        let mut exts = der::wrap(TAG_CONTEXT_3, ext_seq);
        body.append(&mut exts);
        proof {
            assert(body@ =~= der::spec_tlv(TAG_CONTEXT_0, der::spec_uint(2)) + der::spec_uint(
                spec_serial(self.params) as nat,
            ) + spec_alg_ident(self.params.alg) + spec_name(ca.params.distinguished_name@)
                + spec_validity(self.params.not_before, self.params.not_after) + spec_name(
                self.params.distinguished_name@,
            ) + spec_spki(self.params.alg, self.key_pair.spec_public_key()) + der::spec_tlv(
                TAG_CONTEXT_3,
                der::spec_tlv(
                    der::TAG_SEQUENCE,
                    spec_extensions(self.params, self.key_pair.spec_public_key()),
                ),
            ));
        }
        der::wrap(der::TAG_SEQUENCE, body)
    }

    /// Encodes the certification request info body.
    fn csr_info_der(&self) -> (r: Vec<u8>)
        ensures
            r@ == spec_csr_info(self.spec_params(), self.spec_key().spec_public_key()),
    {
        let mut body = der::der_uint(0);
        let mut subject = der_name(&self.params.distinguished_name);
        body.append(&mut subject);
        let pk = self.key_pair.public_key();
        let mut spki_content = self.params.alg.der_spki_alg();
        let mut pk_bits = der::der_bit_string(pk.as_slice());
        spki_content.append(&mut pk_bits);
        let mut spki = der::wrap(der::TAG_SEQUENCE, spki_content);
        body.append(&mut spki);
        let san = der_san_extension(&self.params.subject_alt_names);
        let requested = der::wrap(der::TAG_SEQUENCE, san);
        let requested_set = der::wrap(der::TAG_SET, requested);
        let oid = oids::oid_extension_request();
        let mut attr_content = der::der_oid(oid.as_slice());
        let mut requested_set_der = requested_set;
        attr_content.append(&mut requested_set_der);
        let attr = der::wrap(der::TAG_SEQUENCE, attr_content);
        let mut attrs = der::wrap(TAG_CONTEXT_0, attr);
        body.append(&mut attrs);
        proof {
            assert(body@ =~= der::spec_uint(0) + spec_name(self.params.distinguished_name@)
                + spec_spki(self.params.alg, self.key_pair.spec_public_key()) + der::spec_tlv(
                TAG_CONTEXT_0,
                der::spec_tlv(
                    der::TAG_SEQUENCE,
                    der::spec_oid(oids::spec_oid_extension_request()) + der::spec_tlv(
                        der::TAG_SET,
                        der::spec_tlv(
                            der::TAG_SEQUENCE,
                            spec_san_extension(
                                spec_str_views(self.params.subject_alt_names@),
                            ),
                        ),
                    ),
                ),
            ));
        }
        der::wrap(der::TAG_SEQUENCE, body)
    }

    /// Wraps a body with the signature algorithm identifier and a
    /// signature by `signer` over the exact body bytes, the signature
    /// in the form the signer's family fixes.
    fn sign_envelope(&self, body: Vec<u8>, signer: &KeyPair) -> (r: Result<Vec<u8>, Error>)
        ensures
            r is Ok ==> exists|sig: Seq<u8>|
                r.unwrap()@ == spec_signed(body@, self.spec_params().alg, sig)
                    && crate::keypair::spec_signature_form(signer, sig),
            *signer is EdKp ==> r is Ok,
            r is Err ==> r == Err::<Vec<u8>, Error>(Error::SigningFailed),
    {
        let sig = match signer.sign(body.as_slice()) {
            Ok(sig) => sig,
            Err(e) => {
                return Err(e);
            },
        };
        let ghost sig_view = sig@;
        let mut out = body;
        let mut alg_ident = self.params.alg.der_alg_ident();
        out.append(&mut alg_ident);
        let mut sig_bits = der::der_bit_string(sig.as_slice());
        out.append(&mut sig_bits);
        let wrapped = der::wrap(der::TAG_SEQUENCE, out);
        proof {
            assert(wrapped@ == spec_signed(body@, self.spec_params().alg, sig_view));
        }
        Ok(wrapped)
    }

    /// Serializes the certificate, self-signed, to binary DER.
    pub fn serialize_der(&self) -> (r: Result<Vec<u8>, Error>)
        ensures
            r is Ok ==> exists|sig: Seq<u8>|
                r.unwrap()@ == spec_certificate_der(
                    self.spec_params(),
                    self.spec_params().distinguished_name@,
                    self.spec_key().spec_public_key(),
                    sig,
                ) && crate::keypair::spec_signature_form(&self.spec_key(), sig),
            self.spec_key() is EdKp ==> r is Ok,
            r is Err ==> r == Err::<Vec<u8>, Error>(Error::SigningFailed),
    {
        self.serialize_der_with_signer(self)
    }

    /// Serializes the certificate to binary DER, signed with another
    /// certificate's key: the issuer Name comes from `ca`, the subject
    /// Name and public key stay this certificate's, and the signature
    /// is computed by `ca`'s key over the exact to-be-signed bytes.
    pub fn serialize_der_with_signer(&self, ca: &Certificate) -> (r: Result<Vec<u8>, Error>)
        ensures
            r is Ok ==> exists|sig: Seq<u8>|
                r.unwrap()@ == spec_certificate_der(
                    self.spec_params(),
                    ca.spec_params().distinguished_name@,
                    self.spec_key().spec_public_key(),
                    sig,
                ) && crate::keypair::spec_signature_form(&ca.spec_key(), sig),
            ca.spec_key() is EdKp ==> r is Ok,
            r is Err ==> r == Err::<Vec<u8>, Error>(Error::SigningFailed),
    {
        let tbs = self.tbs_der(ca);
        let ghost tbs_view = tbs@;
        let out = self.sign_envelope(tbs, &ca.key_pair);
        proof {
            if out is Ok {
                let sig = choose|sig: Seq<u8>|
                    out.unwrap()@ == spec_signed(tbs_view, self.spec_params().alg, sig)
                        && crate::keypair::spec_signature_form(&ca.spec_key(), sig);
                assert(out.unwrap()@ == spec_certificate_der(
                    self.spec_params(),
                    ca.spec_params().distinguished_name@,
                    self.spec_key().spec_public_key(),
                    sig,
                ));
            }
        }
        out
    }

    /// Serializes a certificate signing request to binary DER, always
    /// signed by the requester's own key.
    pub fn serialize_request_der(&self) -> (r: Result<Vec<u8>, Error>)
        ensures
            r is Ok ==> exists|sig: Seq<u8>|
                r.unwrap()@ == spec_csr_der(
                    self.spec_params(),
                    self.spec_key().spec_public_key(),
                    sig,
                ) && crate::keypair::spec_signature_form(&self.spec_key(), sig),
            self.spec_key() is EdKp ==> r is Ok,
            r is Err ==> r == Err::<Vec<u8>, Error>(Error::SigningFailed),
    {
        let info = self.csr_info_der();
        let ghost info_view = info@;
        let out = self.sign_envelope(info, &self.key_pair);
        proof {
            if out is Ok {
                let sig = choose|sig: Seq<u8>|
                    out.unwrap()@ == spec_signed(info_view, self.spec_params().alg, sig)
                        && crate::keypair::spec_signature_form(&self.spec_key(), sig);
                assert(out.unwrap()@ == spec_csr_der(
                    self.spec_params(),
                    self.spec_key().spec_public_key(),
                    sig,
                ));
            }
        }
        out
    }

    /// Serializes the certificate, self-signed, to the PEM format
    /// under the `CERTIFICATE` label; parsing the text back yields the
    /// exact certificate DER.
    pub fn serialize_pem(&self) -> (r: Result<String, Error>)
        ensures
            r is Ok ==> exists|sig: Seq<u8>|
                r.unwrap()@ == pem_io::spec_pem_encode(
                    "CERTIFICATE"@,
                    spec_certificate_der(
                        self.spec_params(),
                        self.spec_params().distinguished_name@,
                        self.spec_key().spec_public_key(),
                        sig,
                    ),
                ) && pem_io::spec_pem_parse(r.unwrap()@) == Some(
                    spec_certificate_der(
                        self.spec_params(),
                        self.spec_params().distinguished_name@,
                        self.spec_key().spec_public_key(),
                        sig,
                    ),
                ),
            self.spec_key() is EdKp ==> r is Ok,
            r is Err ==> r == Err::<String, Error>(Error::SigningFailed),
    {
        let der_bytes = match self.serialize_der() {
            Ok(b) => b,
            Err(e) => {
                return Err(e);
            },
        };
        let ghost der_view = der_bytes@;
        let text = pem_io::pem_encode("CERTIFICATE", der_bytes.as_slice());
        proof {
            let sig = choose|sig: Seq<u8>|
                der_view == spec_certificate_der(
                    self.spec_params(),
                    self.spec_params().distinguished_name@,
                    self.spec_key().spec_public_key(),
                    sig,
                );
            assert(text@ == pem_io::spec_pem_encode(
                "CERTIFICATE"@,
                spec_certificate_der(
                    self.spec_params(),
                    self.spec_params().distinguished_name@,
                    self.spec_key().spec_public_key(),
                    sig,
                ),
            ));
        }
        Ok(text)
    }

    /// Serializes the certificate, signed with another certificate's
    /// key, to the PEM format under the `CERTIFICATE` label; parsing
    /// the text back yields the exact certificate DER.
    pub fn serialize_pem_with_signer(&self, ca: &Certificate) -> (r: Result<String, Error>)
        ensures
            r is Ok ==> exists|sig: Seq<u8>|
                r.unwrap()@ == pem_io::spec_pem_encode(
                    "CERTIFICATE"@,
                    spec_certificate_der(
                        self.spec_params(),
                        ca.spec_params().distinguished_name@,
                        self.spec_key().spec_public_key(),
                        sig,
                    ),
                ) && pem_io::spec_pem_parse(r.unwrap()@) == Some(
                    spec_certificate_der(
                        self.spec_params(),
                        ca.spec_params().distinguished_name@,
                        self.spec_key().spec_public_key(),
                        sig,
                    ),
                ),
            ca.spec_key() is EdKp ==> r is Ok,
            r is Err ==> r == Err::<String, Error>(Error::SigningFailed),
    {
        let der_bytes = match self.serialize_der_with_signer(ca) {
            Ok(b) => b,
            Err(e) => {
                return Err(e);
            },
        };
        let ghost der_view = der_bytes@;
        let text = pem_io::pem_encode("CERTIFICATE", der_bytes.as_slice());
        proof {
            let sig = choose|sig: Seq<u8>|
                der_view == spec_certificate_der(
                    self.spec_params(),
                    ca.spec_params().distinguished_name@,
                    self.spec_key().spec_public_key(),
                    sig,
                );
            assert(text@ == pem_io::spec_pem_encode(
                "CERTIFICATE"@,
                spec_certificate_der(
                    self.spec_params(),
                    ca.spec_params().distinguished_name@,
                    self.spec_key().spec_public_key(),
                    sig,
                ),
            ));
        }
        Ok(text)
    }

    /// Serializes the certificate signing request to the PEM format
    /// under the `CERTIFICATE REQUEST` label; parsing the text back
    /// yields the exact request DER.
    pub fn serialize_request_pem(&self) -> (r: Result<String, Error>)
        ensures
            r is Ok ==> exists|sig: Seq<u8>|
                r.unwrap()@ == pem_io::spec_pem_encode(
                    "CERTIFICATE REQUEST"@,
                    spec_csr_der(
                        self.spec_params(),
                        self.spec_key().spec_public_key(),
                        sig,
                    ),
                ) && pem_io::spec_pem_parse(r.unwrap()@) == Some(
                    spec_csr_der(self.spec_params(), self.spec_key().spec_public_key(), sig),
                ),
            self.spec_key() is EdKp ==> r is Ok,
            r is Err ==> r == Err::<String, Error>(Error::SigningFailed),
    {
        let der_bytes = match self.serialize_request_der() {
            Ok(b) => b,
            Err(e) => {
                return Err(e);
            },
        };
        let ghost der_view = der_bytes@;
        let text = pem_io::pem_encode("CERTIFICATE REQUEST", der_bytes.as_slice());
        proof {
            let sig = choose|sig: Seq<u8>|
                der_view == spec_csr_der(
                    self.spec_params(),
                    self.spec_key().spec_public_key(),
                    sig,
                );
            assert(text@ == pem_io::spec_pem_encode(
                "CERTIFICATE REQUEST"@,
                spec_csr_der(self.spec_params(), self.spec_key().spec_public_key(), sig),
            ));
        }
        Ok(text)
    }

    /// Serializes the private key as its original PKCS#8 bytes.
    pub fn serialize_private_key_der(&self) -> (r: Vec<u8>)
        ensures
            r@ == self.spec_key().spec_pkcs8(),
    {
        self.key_pair.serialize_der()
    }

    /// Serializes the private key as a PEM document under the
    /// `PRIVATE KEY` label; parsing the text back yields the exact
    /// PKCS#8 bytes.
    pub fn serialize_private_key_pem(&self) -> (r: String)
        ensures
            r@ == pem_io::spec_pem_encode("PRIVATE KEY"@, self.spec_key().spec_pkcs8()),
            pem_io::spec_pem_parse(r@) == Some(self.spec_key().spec_pkcs8()),
    {
        self.key_pair.serialize_pem()
    }
}

/// Generates a self-signed certificate valid for the given DNS names,
/// filling every other parameter with its default.
pub fn generate_simple_self_signed(subject_alt_names: Vec<String>) -> (r: Result<
    Certificate,
    Error,
>)
    ensures
        r is Ok ==> crate::params::spec_default_params(r.unwrap().spec_params())
            && r.unwrap().spec_params().subject_alt_names == subject_alt_names,
        r is Err ==> r == Err::<Certificate, Error>(Error::KeyGenerationFailed),
{
    let params = CertificateParams::new(subject_alt_names);
    Certificate::from_params(params)
}

} // verus!

