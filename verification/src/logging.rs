//! A service with two text pages whose every error is itself answered as a
//! reply: its route table, its pages and the reply made from an error.
use vstd::prelude::*;
use crate::path::{path_segments, segment_views, segment_is, split_path, segment_matches};
use crate::reply::{Reply, Header, CREATED, OK};
use crate::routing::{Method, Rejection, Outcome, either, target, pick_route, into_target};

verus! {

/// The routes of the text service.
#[derive(Clone, Copy, Debug, PartialEq, Eq, Structural)]
pub enum TextRoute {
    /// `GET /index`
    Index,
    /// `GET /created`
    Created,
}

/// A `GET` route whose first segment is `word`; later segments are left alone.
pub open spec fn prefix_outcome(method: Method, segs: Seq<Seq<u8>>, word: Seq<char>, route: TextRoute) -> Outcome<TextRoute> {
    if method != Method::Get {
        Err(Rejection::MethodNotAllowed)
    } else if segs.len() >= 1 && segment_is(segs[0], word) {
        Ok((route, 1))
    } else {
        Err(Rejection::NotFound)
    }
}

/// The route table of the text service: `/index` and `/created`, both for `GET`.
pub open spec fn text_route(method: Method, segs: Seq<Seq<u8>>) -> Result<TextRoute, Rejection> {
    target(
        either(
            prefix_outcome(method, segs, "index"@, TextRoute::Index),
            prefix_outcome(method, segs, "created"@, TextRoute::Created),
        ),
    )
}

fn prefix_alternative(method: Method, segs: &Vec<Vec<u8>>, word: &str, route: TextRoute) -> (r: Outcome<TextRoute>)
    ensures
        r == prefix_outcome(method, segment_views(segs@), word@, route),
{
    if method != Method::Get {
        Err(Rejection::MethodNotAllowed)
    } else if segs.len() >= 1 && segment_matches(&segs[0], word) {
        Ok((route, 1))
    } else {
        proof {
            if segs@.len() >= 1 {
                assert(segment_views(segs@)[0] == segs@[0]@);
            }
        }
        Err(Rejection::NotFound)
    }
}

/// Routes a request of the text service by its method and path.
pub fn route_text(method: Method, path: &[u8]) -> (r: Result<TextRoute, Rejection>)
    ensures
        r == text_route(method, path_segments(path@)),
{
    let segs = split_path(path);
    let index = prefix_alternative(method, &segs, "index", TextRoute::Index);
    let created = prefix_alternative(method, &segs, "created", TextRoute::Created);
    into_target(pick_route(index, created))
}

/// The content type of text pages.
pub open spec fn text_headers() -> Seq<(Seq<char>, Seq<char>)> {
    seq![("content-type"@, "text/plain; charset=utf-8"@)]
}

/// The page of each route: `Index page` with status 200, and `created` with
/// status 201.
pub open spec fn text_page_of(route: TextRoute) -> (u16, Seq<(Seq<char>, Seq<char>)>, Seq<char>) {
    match route {
        TextRoute::Index => (OK, text_headers(), "Index page"@),
        TextRoute::Created => (CREATED, text_headers(), "created"@),
    }
}

/// The page of a route.
pub fn text_page(route: TextRoute) -> (r: Reply<String>)
    ensures
        (r.status, r.header_pairs(), r.body@) == text_page_of(route),
{
    let mut headers: Vec<Header> = Vec::new();
    headers.push(
        Header {
            name: String::from_str("content-type"),
            value: String::from_str("text/plain; charset=utf-8"),
        },
    );
    let r = match route {
        TextRoute::Index => Reply { status: OK, headers, body: String::from_str("Index page") },
        TextRoute::Created => Reply { status: CREATED, headers, body: String::from_str("created") },
    };
    assert(r.header_pairs() =~= text_headers());
    r
}

/// The reply made from an error: its status code, no headers, and its text as the body.
pub fn recover_reply(status: u16, message: String) -> (r: Reply<String>)
    ensures
        r.status == status,
        r.header_pairs() == Seq::<(Seq<char>, Seq<char>)>::empty(),
        r.body@ == message@,
{
    let r = Reply { status, headers: Vec::new(), body: message };
    assert(r.header_pairs() =~= Seq::<(Seq<char>, Seq<char>)>::empty());
    r
}

/// Requests with another method than `GET` are refused for their method, and
/// `GET` requests outside the two pages are not found.
pub proof fn law_text_refusals(method: Method, segs: Seq<Seq<u8>>)
    ensures
        method != Method::Get ==> text_route(method, segs) == Err::<TextRoute, Rejection>(
            Rejection::MethodNotAllowed,
        ),
        method == Method::Get && text_route(method, segs) is Err ==> text_route(method, segs)
            == Err::<TextRoute, Rejection>(Rejection::NotFound),
{
}

} // verus!
