//! Requests as plain values: what to send, not how to send it.

use vstd::prelude::*;
use vstd::utf8::*;

verus! {

/// HTTP verbs used by the API.
#[derive(Clone, Copy, Debug, PartialEq, Eq, Structural)]
pub enum Method {
    Get,
    Post,
    Patch,
}

impl Method {
    /// The verb as it is written on the request line.
    pub open spec fn text(&self) -> Seq<char> {
        match self {
            Method::Get => "GET"@,
            Method::Post => "POST"@,
            Method::Patch => "PATCH"@,
        }
    }

    /// The verb as it is written on the request line.
    pub fn as_str(&self) -> (r: &'static str)
        ensures
            r@ == self.text(),
    {
        match self {
            Method::Get => "GET",
            Method::Post => "POST",
            Method::Patch => "PATCH",
        }
    }
}

/// A header: its name and its value.
pub type Header = (String, String);

/// One request, ready to be sent.
#[derive(Clone, Debug, PartialEq, Eq)]
pub struct Request {
    pub method: Method,
    /// The absolute address, query string included.
    pub url: String,
    /// The headers in the order in which they were added.
    pub headers: Vec<Header>,
    /// The JSON body, for requests that have one.
    pub body: Option<String>,
}

/// What a [`Request`] holds.
pub ghost struct RequestView {
    pub method: Method,
    pub url: Seq<char>,
    pub headers: Seq<(Seq<char>, Seq<char>)>,
    pub body: Option<Seq<char>>,
}

impl View for Request {
    type V = RequestView;

    open spec fn view(&self) -> RequestView {
        RequestView {
            method: self.method,
            url: self.url@,
            headers: self.headers.deep_view(),
            body: self.body.deep_view(),
        }
    }
}

/// Bytes that a header value may hold: the tab, and everything from the
/// space upwards but the delete character.
pub open spec fn header_byte_ok(b: u8) -> bool {
    (b >= 32 && b != 127) || b == 9
}

/// Whether a text can be the value of a header: every byte of its UTF-8
/// encoding is one that a header value may hold.
pub open spec fn header_value_ok(value: Seq<char>) -> bool {
    forall|i: int|
        0 <= i < encode_utf8(value).len() ==> header_byte_ok(#[trigger] encode_utf8(value)[i])
}

/// `HeaderValue::from_str`, asked only whether it accepts the text: it does
/// unless the text holds a byte that no header value may hold.
#[verifier::external_body]
pub(crate) fn header_value_accepted(value: &str) -> (r: bool)
    ensures
        r == header_value_ok(value@),
{
    reqwest::header::HeaderValue::from_str(value).is_ok()
}

/// A path with its query string: the two joined by a question mark, or the
/// path alone where the query string is empty.
pub open spec fn with_query(path: Seq<char>, query: Seq<char>) -> Seq<char> {
    if query.len() == 0 {
        path
    } else {
        path + "?"@ + query
    }
}

/// Joins a path and a query string.
pub fn path_with_query(path: &str, query: &str) -> (r: String)
    ensures
        r@ == with_query(path@, query@),
{
    if query.is_empty() {
        path.to_owned()
    } else {
        let mut reference = crate::text::followed_by(path, "?");
        reference.append(query);
        reference
    }
}

} // verus!
