//! Trusted bindings to the PEM textual wrapping: base64 body between
//! BEGIN and END lines for a given label.

use vstd::prelude::*;

verus! {

/// What the PEM encoder returns for a label and DER contents.
pub uninterp spec fn spec_pem_encode(tag: Seq<char>, der: Seq<u8>) -> Seq<char>;

/// What the PEM parser returns for a text: the decoded contents of
/// its first block, or nothing where the text is no PEM document.
pub uninterp spec fn spec_pem_parse(text: Seq<char>) -> Option<Seq<u8>>;

/// Relies on pem::encode: deterministic text from the label and the
/// contents alone (base64 body in 64-column lines, CRLF line ends).
/// For the plain labels this library writes, pem::parse decodes that
/// text back to the exact contents.
#[verifier::external_body]
pub(crate) fn pem_encode(tag: &str, der: &[u8]) -> (r: String)
    ensures
        r@ == spec_pem_encode(tag@, der@),
        tag@ == "CERTIFICATE"@ || tag@ == "CERTIFICATE REQUEST"@ || tag@ == "PRIVATE KEY"@
            ==> spec_pem_parse(r@) == Some(der@),
{
    pem::encode(&pem::Pem::new(tag, der))
}

/// Relies on pem::parse: the decoded contents of the PEM block, or
/// nothing where the text is not a well-formed PEM document; the
/// outcome is a deterministic function of the text alone.
#[verifier::external_body]
pub(crate) fn pem_parse_contents(text: &str) -> (r: Option<Vec<u8>>)
    ensures
        r is Some <==> spec_pem_parse(text@) is Some,
        r is Some ==> r.unwrap()@ == spec_pem_parse(text@).unwrap(),
{
    match pem::parse(text) {
        Ok(p) => Some(p.into_contents()),
        Err(_) => None,
    }
}

} // verus!
