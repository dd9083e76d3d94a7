//! The object identifiers used in certificates and requests, as arc
//! sequences, each with its DER well-formedness established.

use vstd::prelude::*;
use crate::der::wf_oid;

verus! {

/// id-at-countryName.
pub open spec fn spec_oid_country_name() -> Seq<u64> {
    seq![2u64, 5, 4, 6]
}

/// id-at-organizationName.
pub open spec fn spec_oid_organization_name() -> Seq<u64> {
    seq![2u64, 5, 4, 10]
}

/// id-at-commonName.
pub open spec fn spec_oid_common_name() -> Seq<u64> {
    seq![2u64, 5, 4, 3]
}

/// id-ecPublicKey.
pub open spec fn spec_oid_ec_public_key() -> Seq<u64> {
    seq![1u64, 2, 840, 10045, 2, 1]
}

/// secp256r1, the P-256 curve.
pub open spec fn spec_oid_ec_secp_256_r1() -> Seq<u64> {
    seq![1u64, 2, 840, 10045, 3, 1, 7]
}

/// secp384r1, the P-384 curve.
pub open spec fn spec_oid_ec_secp_384_r1() -> Seq<u64> {
    seq![1u64, 3, 132, 0, 34]
}

/// rsaEncryption.
pub open spec fn spec_oid_rsa_encryption() -> Seq<u64> {
    seq![1u64, 2, 840, 113549, 1, 1, 1]
}

/// sha256WithRSAEncryption.
pub open spec fn spec_oid_rsa_sha256() -> Seq<u64> {
    seq![1u64, 2, 840, 113549, 1, 1, 11]
}

/// ecdsa-with-SHA256.
pub open spec fn spec_oid_ecdsa_sha256() -> Seq<u64> {
    seq![1u64, 2, 840, 10045, 4, 3, 2]
}

/// ecdsa-with-SHA384.
pub open spec fn spec_oid_ecdsa_sha384() -> Seq<u64> {
    seq![1u64, 2, 840, 10045, 4, 3, 3]
}

/// id-Ed25519.
pub open spec fn spec_oid_ed25519() -> Seq<u64> {
    seq![1u64, 3, 101, 112]
}

/// id-ce-subjectAltName.
pub open spec fn spec_oid_subject_alt_name() -> Seq<u64> {
    seq![2u64, 5, 29, 17]
}

/// id-ce-basicConstraints.
pub open spec fn spec_oid_basic_constraints() -> Seq<u64> {
    seq![2u64, 5, 29, 19]
}

/// id-ce-subjectKeyIdentifier.
pub open spec fn spec_oid_subject_key_identifier() -> Seq<u64> {
    seq![2u64, 5, 29, 14]
}

/// id-pe-acmeIdentifier.
pub open spec fn spec_oid_pe_acme() -> Seq<u64> {
    seq![1u64, 3, 6, 1, 5, 5, 7, 1, 31]
}

/// pkcs-9-at-extensionRequest.
pub open spec fn spec_oid_extension_request() -> Seq<u64> {
    seq![1u64, 2, 840, 113549, 1, 9, 14]
}

fn oid_vec4(a: u64, b: u64, c: u64, d: u64) -> (r: Vec<u64>)
    ensures
        r@ =~= seq![a, b, c, d],
{
    let mut v: Vec<u64> = Vec::new();
    v.push(a);
    v.push(b);
    v.push(c);
    v.push(d);
    v
}

fn oid_vec5(a: u64, b: u64, c: u64, d: u64, e: u64) -> (r: Vec<u64>)
    ensures
        r@ =~= seq![a, b, c, d, e],
{
    let mut v = oid_vec4(a, b, c, d);
    v.push(e);
    v
}

fn oid_vec6(a: u64, b: u64, c: u64, d: u64, e: u64, f: u64) -> (r: Vec<u64>)
    ensures
        r@ =~= seq![a, b, c, d, e, f],
{
    let mut v = oid_vec5(a, b, c, d, e);
    v.push(f);
    v
}

fn oid_vec7(a: u64, b: u64, c: u64, d: u64, e: u64, f: u64, g: u64) -> (r: Vec<u64>)
    ensures
        r@ =~= seq![a, b, c, d, e, f, g],
{
    let mut v = oid_vec6(a, b, c, d, e, f);
    v.push(g);
    v
}

fn oid_vec9(
    a: u64,
    b: u64,
    c: u64,
    d: u64,
    e: u64,
    f: u64,
    g: u64,
    h: u64,
    i: u64,
) -> (r: Vec<u64>)
    ensures
        r@ =~= seq![a, b, c, d, e, f, g, h, i],
{
    let mut v = oid_vec7(a, b, c, d, e, f, g);
    v.push(h);
    v.push(i);
    v
}

/// id-at-countryName as a vector of arcs.
pub fn oid_country_name() -> (r: Vec<u64>)
    ensures
        r@ == spec_oid_country_name(),
        wf_oid(r@),
{
    oid_vec4(2, 5, 4, 6)
}

/// id-at-organizationName as a vector of arcs.
pub fn oid_organization_name() -> (r: Vec<u64>)
    ensures
        r@ == spec_oid_organization_name(),
        wf_oid(r@),
{
    oid_vec4(2, 5, 4, 10)
}

/// id-at-commonName as a vector of arcs.
pub fn oid_common_name() -> (r: Vec<u64>)
    ensures
        r@ == spec_oid_common_name(),
        wf_oid(r@),
{
    oid_vec4(2, 5, 4, 3)
}

/// id-ecPublicKey as a vector of arcs.
pub fn oid_ec_public_key() -> (r: Vec<u64>)
    ensures
        r@ == spec_oid_ec_public_key(),
        wf_oid(r@),
{
    oid_vec6(1, 2, 840, 10045, 2, 1)
}

/// secp256r1 as a vector of arcs.
pub fn oid_ec_secp_256_r1() -> (r: Vec<u64>)
    ensures
        r@ == spec_oid_ec_secp_256_r1(),
        wf_oid(r@),
{
    oid_vec7(1, 2, 840, 10045, 3, 1, 7)
}

/// secp384r1 as a vector of arcs.
pub fn oid_ec_secp_384_r1() -> (r: Vec<u64>)
    ensures
        r@ == spec_oid_ec_secp_384_r1(),
        wf_oid(r@),
{
    oid_vec5(1, 3, 132, 0, 34)
}

/// rsaEncryption as a vector of arcs.
pub fn oid_rsa_encryption() -> (r: Vec<u64>)
    ensures
        r@ == spec_oid_rsa_encryption(),
        wf_oid(r@),
{
    oid_vec7(1, 2, 840, 113549, 1, 1, 1)
}

/// sha256WithRSAEncryption as a vector of arcs.
pub fn oid_rsa_sha256() -> (r: Vec<u64>)
    ensures
        r@ == spec_oid_rsa_sha256(),
        wf_oid(r@),
{
    oid_vec7(1, 2, 840, 113549, 1, 1, 11)
}

/// ecdsa-with-SHA256 as a vector of arcs.
pub fn oid_ecdsa_sha256() -> (r: Vec<u64>)
    ensures
        r@ == spec_oid_ecdsa_sha256(),
        wf_oid(r@),
{
    oid_vec7(1, 2, 840, 10045, 4, 3, 2)
}

/// ecdsa-with-SHA384 as a vector of arcs.
pub fn oid_ecdsa_sha384() -> (r: Vec<u64>)
    ensures
        r@ == spec_oid_ecdsa_sha384(),
        wf_oid(r@),
{
    oid_vec7(1, 2, 840, 10045, 4, 3, 3)
}

/// id-Ed25519 as a vector of arcs.
pub fn oid_ed25519() -> (r: Vec<u64>)
    ensures
        r@ == spec_oid_ed25519(),
        wf_oid(r@),
{
    oid_vec4(1, 3, 101, 112)
}

/// id-ce-subjectAltName as a vector of arcs.
pub fn oid_subject_alt_name() -> (r: Vec<u64>)
    ensures
        r@ == spec_oid_subject_alt_name(),
        wf_oid(r@),
{
    oid_vec4(2, 5, 29, 17)
}

/// id-ce-basicConstraints as a vector of arcs.
pub fn oid_basic_constraints() -> (r: Vec<u64>)
    ensures
        r@ == spec_oid_basic_constraints(),
        wf_oid(r@),
{
    oid_vec4(2, 5, 29, 19)
}

/// id-ce-subjectKeyIdentifier as a vector of arcs.
pub fn oid_subject_key_identifier() -> (r: Vec<u64>)
    ensures
        r@ == spec_oid_subject_key_identifier(),
        wf_oid(r@),
{
    oid_vec4(2, 5, 29, 14)
}

/// id-pe-acmeIdentifier as a vector of arcs.
pub fn oid_pe_acme() -> (r: Vec<u64>)
    ensures
        r@ == spec_oid_pe_acme(),
        wf_oid(r@),
{
    oid_vec9(1, 3, 6, 1, 5, 5, 7, 1, 31)
}

/// pkcs-9-at-extensionRequest as a vector of arcs.
pub fn oid_extension_request() -> (r: Vec<u64>)
    ensures
        r@ == spec_oid_extension_request(),
        wf_oid(r@),
{
    oid_vec7(1, 2, 840, 113549, 1, 9, 14)
}

} // verus!
