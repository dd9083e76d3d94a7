//! Certificate identity and policy parameters: the distinguished name
//! model, CA policy, custom extensions, and the central parameter set.

use vstd::prelude::*;
use vstd::pervasive::VecAdditionalExecFns;
use crate::alg::SignatureAlgorithm;
use crate::der;
use crate::error::Error;
use crate::keypair::KeyPair;
use crate::oids;
use crate::time::UtcDateTime;

verus! {

/// The attribute type of a distinguished name entry.
#[derive(Clone, Copy, PartialEq, Eq, Structural, Hash, Debug)]
#[non_exhaustive]
pub enum DnType {
    /// id-at-countryName.
    CountryName,
    /// id-at-organizationName.
    OrganizationName,
    /// id-at-commonName.
    CommonName,
}

/// The object identifier of a distinguished name attribute type.
pub open spec fn spec_dn_oid(ty: DnType) -> Seq<u64> {
    match ty {
        DnType::CountryName => oids::spec_oid_country_name(),
        DnType::OrganizationName => oids::spec_oid_organization_name(),
        DnType::CommonName => oids::spec_oid_common_name(),
    }
}

impl DnType {
    /// The object identifier arcs of this attribute type.
    pub fn to_oid(&self) -> (r: Vec<u64>)
        ensures
            r@ == spec_dn_oid(*self),
            der::wf_oid(r@),
    {
        match self {
            DnType::CountryName => oids::oid_country_name(),
            DnType::OrganizationName => oids::oid_organization_name(),
            DnType::CommonName => oids::oid_common_name(),
        }
    }
}

/// The abstract value of a distinguished name: its entries in
/// insertion order, each attribute type at most once.
pub open spec fn spec_dn_entries(es: Seq<(DnType, String)>) -> Seq<(DnType, Seq<char>)> {
    Seq::new(es.len(), |i: int| (es[i].0, es[i].1@))
}

/// Inserting an attribute: an existing entry of the same type is
/// overwritten in place, a new type goes to the end.
pub open spec fn spec_dn_push(
    dn: Seq<(DnType, Seq<char>)>,
    ty: DnType,
    v: Seq<char>,
) -> Seq<(DnType, Seq<char>)>
    decreases dn.len(),
{
    if dn.len() == 0 {
        seq![(ty, v)]
    } else if dn[0].0 == ty {
        seq![(ty, v)] + dn.drop_first()
    } else {
        seq![dn[0]] + spec_dn_push(dn.drop_first(), ty, v)
    }
}

proof fn lemma_dn_push_update(dn: Seq<(DnType, Seq<char>)>, ty: DnType, v: Seq<char>, i: int)
    requires
        0 <= i < dn.len(),
        dn[i].0 == ty,
        forall|j: int| 0 <= j < i ==> (#[trigger] dn[j]).0 != ty,
    ensures
        spec_dn_push(dn, ty, v) == dn.update(i, (ty, v)),
    decreases i,
{
    if i == 0 {
        assert(spec_dn_push(dn, ty, v) =~= dn.update(0, (ty, v)));
    } else {
        assert(dn.drop_first()[i - 1].0 == ty);
        assert(forall|j: int| 0 <= j < i - 1 ==> (#[trigger] dn.drop_first()[j]).0 != ty);
        lemma_dn_push_update(dn.drop_first(), ty, v, i - 1);
        assert(spec_dn_push(dn, ty, v) =~= dn.update(i, (ty, v)));
    }
}

proof fn lemma_dn_push_append(dn: Seq<(DnType, Seq<char>)>, ty: DnType, v: Seq<char>)
    requires
        forall|j: int| 0 <= j < dn.len() ==> (#[trigger] dn[j]).0 != ty,
    ensures
        spec_dn_push(dn, ty, v) == dn.push((ty, v)),
    decreases dn.len(),
{
    if dn.len() == 0 {
        assert(spec_dn_push(dn, ty, v) =~= dn.push((ty, v)));
    } else {
        assert(forall|j: int|
            0 <= j < dn.drop_first().len() ==> (#[trigger] dn.drop_first()[j]).0 != ty);
        lemma_dn_push_append(dn.drop_first(), ty, v);
        assert(spec_dn_push(dn, ty, v) =~= dn.push((ty, v)));
    }
}

/// Distinguished name used for the issuer and subject fields: a
/// sequence of (attribute type, attribute value) entries, kept in
/// insertion order, with at most one value per type.
#[derive(Debug)]
pub struct DistinguishedName {
    entries: Vec<(DnType, String)>,
}

impl View for DistinguishedName {
    type V = Seq<(DnType, Seq<char>)>;

    closed spec fn view(&self) -> Seq<(DnType, Seq<char>)> {
        spec_dn_entries(self.entries@)
    }
}

impl DistinguishedName {
    #[verifier::type_invariant]
    spec fn inv(&self) -> bool {
        forall|i: int, j: int|
            0 <= i < j < self.entries@.len() ==> (#[trigger] self.entries@[i]).0 != (
            #[trigger] self.entries@[j]).0
    }

    /// Creates a new, empty distinguished name.
    pub fn new() -> (r: Self)
        ensures
            r@ == Seq::<(DnType, Seq<char>)>::empty(),
    {
        let r = DistinguishedName { entries: Vec::new() };
        proof {
            assert(r@ =~= Seq::<(DnType, Seq<char>)>::empty());
        }
        r
    }

    /// The number of entries.
    pub fn len(&self) -> (n: usize)
        ensures
            n == self@.len(),
    {
        self.entries.len()
    }

    /// The entry at an index, in insertion order.
    pub fn entry_at(&self, i: usize) -> (r: &(DnType, String))
        requires
            i < self@.len(),
        ensures
            r.0 == self@[i as int].0,
            r.1@ == self@[i as int].1,
    {
        &self.entries[i]
    }

    fn find_entry(entries: &Vec<(DnType, String)>, ty: DnType) -> (r: Option<usize>)
        ensures
            match r {
                Some(i) => i < entries@.len() && entries@[i as int].0 == ty && forall|j: int|
                    0 <= j < i ==> (#[trigger] entries@[j]).0 != ty,
                None => forall|j: int|
                    0 <= j < entries@.len() ==> (#[trigger] entries@[j]).0 != ty,
            },
    {
        let n = entries.len();
        for i in 0..n
            invariant
                n == entries@.len(),
                forall|j: int| 0 <= j < i ==> (#[trigger] entries@[j]).0 != ty,
        {
            if entries[i].0 == ty {
                return Some(i);
            }
        }
        None
    }

    /// Inserts an attribute of the given type and value; a value
    /// already present for the type is overwritten in place.
    pub fn push(&mut self, ty: DnType, s: String)
        ensures
            final(self)@ == spec_dn_push(old(self)@, ty, s@),
    {
        proof {
            use_type_invariant(&*self);
        }
        let ghost dn0 = self@;
        let mut entries: Vec<(DnType, String)> = Vec::new();
        std::mem::swap(&mut entries, &mut self.entries);
        let ghost es0 = entries@;
        match Self::find_entry(&entries, ty) {
            Some(i) => {
                entries.set(i, (ty, s));
                proof {
                    lemma_dn_push_update(dn0, ty, s@, i as int);
                    assert(spec_dn_entries(entries@) =~= dn0.update(i as int, (ty, s@)));
                }
            },
            None => {
                entries.push((ty, s));
                proof {
                    lemma_dn_push_append(dn0, ty, s@);
                    assert(spec_dn_entries(entries@) =~= dn0.push((ty, s@)));
                }
            },
        }
        self.entries = entries;
    }
}

/// The abstract value of a custom extension.
pub struct CustomExtensionValue {
    /// The extension's object identifier arcs.
    pub oid: Seq<u64>,
    /// Whether the extension is critical.
    pub critical: bool,
    /// The extension's content, already encoded as its DER value.
    pub content: Seq<u8>,
}

/// A custom extension of a certificate: an object identifier, a
/// criticality flag, and content already encoded as the extension's
/// DER value.
#[derive(Debug)]
pub struct CustomExtension {
    oid: Vec<u64>,
    critical: bool,
    content: Vec<u8>,
}

impl View for CustomExtension {
    type V = CustomExtensionValue;

    closed spec fn view(&self) -> CustomExtensionValue {
        CustomExtensionValue { oid: self.oid@, critical: self.critical, content: self.content@ }
    }
}

impl CustomExtension {
    #[verifier::type_invariant]
    spec fn inv(&self) -> bool {
        der::wf_oid(self.oid@)
    }

    /// Creates a new acmeIdentifier extension for ACME TLS-ALPN-01,
    /// from the SHA-256 digest of the key authorization. The digest
    /// must hold exactly 32 bytes; any other length is rejected. The
    /// extension is critical, and its value wraps the digest as an
    /// OCTET STRING.
    pub fn new_acme_identifier(sha_digest: &[u8]) -> (r: Result<Self, Error>)
        ensures
            r is Ok <==> sha_digest@.len() == 32,
            r is Err <==> r == Err::<Self, Error>(Error::InvalidAcmeDigestLength),
            r is Ok ==> r.unwrap()@.oid == oids::spec_oid_pe_acme() && r.unwrap()@.critical
                == true && r.unwrap()@.content == der::spec_octet_string(sha_digest@),
    {
        if sha_digest.len() != 32 {
            return Err(Error::InvalidAcmeDigestLength);
        }
        let content = der::der_octet_string(sha_digest);
        Ok(CustomExtension { oid: oids::oid_pe_acme(), critical: true, content })
    }

    /// Creates a new custom extension with the given content; the
    /// criticality flag starts out false. The object identifier must
    /// have at least two arcs, within the X.660 limits.
    pub fn from_oid_content(oid: &[u64], content: Vec<u8>) -> (r: Self)
        requires
            der::wf_oid(oid@),
        ensures
            r@.oid == oid@,
            r@.critical == false,
            r@.content == content@,
    {
        let mut arcs: Vec<u64> = Vec::new();
        let n = oid.len();
        for i in 0..n
            invariant
                n == oid@.len(),
                arcs@ == oid@.subrange(0, i as int),
        {
            arcs.push(oid[i]);
            assert(arcs@ =~= oid@.subrange(0, i + 1));
        }
        assert(arcs@ =~= oid@);
        CustomExtension { oid: arcs, critical: false, content }
    }

    /// Sets the criticality flag of the extension.
    pub fn set_criticality(&mut self, criticality: bool)
        ensures
            final(self)@.oid == old(self)@.oid,
            final(self)@.content == old(self)@.content,
            final(self)@.critical == criticality,
    {
        proof {
            use_type_invariant(&*self);
        }
        self.critical = criticality;
    }

    /// The extension's object identifier arcs, well formed by
    /// construction.
    pub fn oid_arcs(&self) -> (r: &Vec<u64>)
        ensures
            r@ == self@.oid,
            der::wf_oid(r@),
    {
        proof {
            use_type_invariant(&*self);
        }
        &self.oid
    }

    /// Whether the extension is critical.
    pub fn is_critical(&self) -> (r: bool)
        ensures
            r == self@.critical,
    {
        self.critical
    }

    /// The extension's DER value content.
    pub fn content_bytes(&self) -> (r: &Vec<u8>)
        ensures
            r@ == self@.content,
    {
        &self.content
    }
}

/// Whether the certificate is allowed to sign other certificates.
#[derive(Clone, Copy, PartialEq, Eq, Structural, Debug)]
pub enum IsCa {
    /// The certificate can only sign itself.
    SelfSignedOnly,
    /// The certificate may be used to sign other certificates.
    Ca(BasicConstraints),
}

/// The path length constraint, relevant only for CA certificates: an
/// optional upper limit on the intermediate chain below this CA.
#[derive(Clone, Copy, PartialEq, Eq, Structural, Debug)]
pub enum BasicConstraints {
    /// No constraint.
    Unconstrained,
    /// Constrain to the contained number of intermediate certificates.
    Constrained(u8),
}

/// Parameters used for certificate generation.
#[non_exhaustive]
pub struct CertificateParams {
    /// The signature algorithm registry entry.
    pub alg: SignatureAlgorithm,
    /// Start of the validity window.
    pub not_before: UtcDateTime,
    /// End of the validity window.
    pub not_after: UtcDateTime,
    /// The serial number; encoded as 42 when absent.
    pub serial_number: Option<u64>,
    /// DNS names the certificate is valid for, in order.
    pub subject_alt_names: Vec<String>,
    /// The subject (and self-signed issuer) distinguished name.
    pub distinguished_name: DistinguishedName,
    /// Whether CA extensions are emitted.
    pub is_ca: IsCa,
    /// Further extensions, in order.
    pub custom_extensions: Vec<CustomExtension>,
    /// The certificate's key pair; a new random key pair is generated
    /// when this is absent.
    pub key_pair: Option<KeyPair>,
}

/// Whether a timestamp is midnight on the given calendar day.
pub open spec fn spec_is_midnight_ymd(t: UtcDateTime, y: u16, m: u8, d: u8) -> bool {
    &&& t.spec_year() == y
    &&& t.spec_month() == m
    &&& t.spec_day() == d
    &&& t.spec_hour() == 0
    &&& t.spec_minute() == 0
    &&& t.spec_second() == 0
    &&& t.spec_nanosecond() == 0
}

/// The defaults every parameter other than the subject alternative
/// names starts from: ECDSA P-256 with SHA-256, a practically
/// unbounded validity window, no serial number, a single CommonName
/// entry, no CA extensions, no custom extensions, no key pair.
pub open spec fn spec_default_params(p: CertificateParams) -> bool {
    &&& p.alg == SignatureAlgorithm::EcdsaP256Sha256
    &&& spec_is_midnight_ymd(p.not_before, 1975, 1, 1)
    &&& spec_is_midnight_ymd(p.not_after, 4096, 1, 1)
    &&& p.serial_number is None
    &&& p.distinguished_name@ == seq![(DnType::CommonName, "rcgen self signed cert"@)]
    &&& p.is_ca == IsCa::SelfSignedOnly
    &&& p.custom_extensions@ == Seq::<CustomExtension>::empty()
    &&& p.key_pair is None
}

impl Default for CertificateParams {
    /// Generates certificate parameters with reasonable defaults.
    fn default() -> (r: Self)
        ensures
            spec_default_params(r),
            r.subject_alt_names@ == Seq::<String>::empty(),
    {
        let not_before = crate::time::date_time_ymd(1975, 1, 1);
        let not_after = crate::time::date_time_ymd(4096, 1, 1);
        let mut distinguished_name = DistinguishedName::new();
        distinguished_name.push(DnType::CommonName, "rcgen self signed cert".to_owned());
        proof {
            assert(distinguished_name@ =~= seq![(DnType::CommonName, "rcgen self signed cert"@)]);
        }
        CertificateParams {
            alg: SignatureAlgorithm::EcdsaP256Sha256,
            not_before,
            not_after,
            serial_number: None,
            subject_alt_names: Vec::new(),
            distinguished_name,
            is_ca: IsCa::SelfSignedOnly,
            custom_extensions: Vec::new(),
            key_pair: None,
        }
    }
}

impl CertificateParams {
    /// Generates certificate parameters with reasonable defaults and
    /// the given subject alternative names.
    pub fn new(subject_alt_names: Vec<String>) -> (r: Self)
        ensures
            spec_default_params(r),
            r.subject_alt_names == subject_alt_names,
    {
        let mut params = CertificateParams::default();
        params.subject_alt_names = subject_alt_names;
        params
    }
}

} // verus!
