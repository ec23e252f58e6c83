//! HTTP replies as plain values: a status code, a list of headers and a body.
use vstd::prelude::*;

verus! {

/// `200 OK`
pub const OK: u16 = 200;

/// `201 Created`
pub const CREATED: u16 = 201;

/// `302 Found`
pub const FOUND: u16 = 302;

/// `400 Bad Request`
pub const BAD_REQUEST: u16 = 400;

/// `401 Unauthorized`
pub const UNAUTHORIZED: u16 = 401;

/// `404 Not Found`
pub const NOT_FOUND: u16 = 404;

/// `405 Method Not Allowed`
pub const METHOD_NOT_ALLOWED: u16 = 405;

/// `500 Internal Server Error`
pub const INTERNAL_SERVER_ERROR: u16 = 500;

/// One header line of a reply.
pub struct Header {
    pub name: String,
    pub value: String,
}

impl Header {
    /// The header as a pair of name and value.
    pub open spec fn spec_pair(self) -> (Seq<char>, Seq<char>) {
        (self.name@, self.value@)
    }
}

/// A reply to a request: status code, headers in the order they were added, and body.
pub struct Reply<B> {
    pub status: u16,
    pub headers: Vec<Header>,
    pub body: B,
}

impl<B> Reply<B> {
    /// The headers of the reply as (name, value) pairs.
    pub open spec fn header_pairs(&self) -> Seq<(Seq<char>, Seq<char>)> {
        self.headers@.map_values(|h: Header| h.spec_pair())
    }
}

/// An error answered to the client: a status code and the text of the body.
pub struct Failure {
    pub status: u16,
    pub message: String,
}

/// The content type of the HTML pages.
pub open spec fn html_content_type() -> Seq<char> {
    "text/html; charset=utf-8"@
}

/// The single header of an HTML page.
pub open spec fn html_headers() -> Seq<(Seq<char>, Seq<char>)> {
    seq![("content-type"@, html_content_type())]
}

/// The single header of a redirect to `location`.
pub open spec fn redirect_headers(location: Seq<char>) -> Seq<(Seq<char>, Seq<char>)> {
    seq![("location"@, location)]
}

/// A character that may stand in a header value: every character but the
/// ASCII control characters, where tab is allowed.
pub open spec fn header_value_char(c: char) -> bool {
    c == '\t' || (32 <= c as u32 && c as u32 != 127)
}

/// Text that may be the value of a header.
pub open spec fn valid_header_value(s: Seq<char>) -> bool {
    forall|i: int| 0 <= i < s.len() ==> header_value_char(#[trigger] s[i])
}

/// Asks `http::header::HeaderValue::from_str` whether it accepts `value`.
/// Its source accepts a text exactly when every byte of its UTF-8 encoding is
/// a tab or at least 32 and not 127; on characters that is `valid_header_value`.
#[verifier::external_body]
fn http_accepts_header_value(value: &str) -> (ok: bool)
    ensures
        ok == valid_header_value(value@),
{
    http::header::HeaderValue::from_str(value).is_ok()
}

/// A header whose name and value are copies of the given texts.
fn make_header(name: &str, value: &str) -> (h: Header)
    ensures
        h.spec_pair() == (name@, value@),
{
    Header { name: String::from_str(name), value: String::from_str(value) }
}

/// An HTML page: status 200, the HTML content type, and `body`.
pub fn html<B>(body: B) -> (r: Reply<B>)
    ensures
        r.status == OK,
        r.header_pairs() == html_headers(),
        r.body == body,
{
    let mut headers: Vec<Header> = Vec::new();
    headers.push(make_header("content-type", "text/html; charset=utf-8"));
    let r = Reply { status: OK, headers, body };
    assert(r.header_pairs() =~= html_headers());
    r
}

/// A redirect: status 302, a `location` header holding `location`, and an empty body.
/// The location must be text that a header may hold.
pub fn redirect_to(location: &str) -> (r: Reply<()>)
    requires
        valid_header_value(location@),
    ensures
        r.status == FOUND,
        r.header_pairs() == redirect_headers(location@),
{
    let mut headers: Vec<Header> = Vec::new();
    headers.push(make_header("location", location));
    let r = Reply { status: FOUND, headers, body: () };
    assert(r.header_pairs() =~= redirect_headers(location@));
    r
}

/// A redirect to `location` where that text may stand in a header, and
/// `None` where it may not.
pub fn try_redirect_to(location: &str) -> (r: Option<Reply<()>>)
    ensures
        r is Some <==> valid_header_value(location@),
        r matches Some(reply) ==> reply.status == FOUND && reply.header_pairs()
            == redirect_headers(location@),
{
    if http_accepts_header_value(location) {
        Some(redirect_to(location))
    } else {
        None
    }
}

/// The same reply with another body.
pub fn with_body<B, C>(reply: Reply<B>, body: C) -> (r: Reply<C>)
    ensures
        r.status == reply.status,
        r.header_pairs() == reply.header_pairs(),
        r.body == body,
{
    Reply { status: reply.status, headers: reply.headers, body }
}

} // verus!
