//! Addresses of the service.
//!
//! Parsing and resolving addresses is the work of the `url` crate. Verified
//! code holds a `url::Url` without looking inside: it knows an address by
//! its text, [`url_text`], and what the two functions of this module say
//! about the text they produce. Those statements are taken on trust.

use vstd::prelude::*;

verus! {

/// `url::Url`, held without looking inside.
#[verifier::external_type_specification]
#[verifier::external_body]
pub struct ExUrl(url::Url);

/// `url::ParseError`, the reason why an address was rejected. It is carried
/// to the caller as it is.
#[verifier::external_type_specification]
#[verifier::external_body]
pub struct ExParseError(url::ParseError);

/// The text of an address: what `Url::as_str` returns for it.
pub uninterp spec fn url_text(url: url::Url) -> Seq<char>;

/// The outcome of `Url::parse` on an input: the text of the address, or
/// `None` where the input is rejected.
pub uninterp spec fn url_parse(input: Seq<char>) -> Option<Seq<char>>;

/// The outcome of `Url::join`: the text of the address that a reference
/// resolves to against the base address with the given text, or `None`
/// where the reference cannot be resolved.
pub uninterp spec fn url_join(base: Seq<char>, reference: Seq<char>) -> Option<Seq<char>>;

/// `Url::parse`: reads an absolute address.
#[verifier::external_body]
pub(crate) fn parse(input: &str) -> (r: Result<url::Url, url::ParseError>)
    ensures
        r is Ok <==> url_parse(input@) is Some,
        r matches Ok(url) ==> Some(url_text(url)) == url_parse(input@),
{
    url::Url::parse(input)
}

/// `Url::join`: resolves a reference against a base address.
#[verifier::external_body]
pub(crate) fn join(base: &url::Url, reference: &str) -> (r: Result<url::Url, url::ParseError>)
    ensures
        r is Ok <==> url_join(url_text(*base), reference@) is Some,
        r matches Ok(url) ==> Some(url_text(url)) == url_join(url_text(*base), reference@),
{
    base.join(reference)
}

/// `Url::as_str`: the text of the address.
#[verifier::external_body]
pub(crate) fn as_str(url: &url::Url) -> (r: &str)
    ensures
        r@ == url_text(*url),
{
    url.as_str()
}

} // verus!
