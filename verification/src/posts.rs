//! The posts API: its route table under `/api/v1/posts`, how many posts a
//! listing loads, and the answer to a lookup that found nothing.
use vstd::prelude::*;
use crate::path::{decimal_text, law_decimal_round_trip, lemma_decimal_text_plain, lemma_decimal_digits, lemma_segments_step, lemma_segments_last, path_segments, segment_views, segment_is, segment_i32, split_path, segment_matches, decode_i32_segment};
use crate::reply::{Failure, CREATED, NOT_FOUND, OK};
use crate::routing::{Method, Rejection, Outcome, either, target, pick_route, into_target};

verus! {

/// The query of a listing: how many posts to load at most.
pub struct Query {
    pub count: i64,
}

impl Query {
    /// A query for at most `count` posts.
    pub fn new(count: i64) -> (q: Query)
        ensures
            q.count == count,
    {
        Query { count }
    }
}

impl Default for Query {
    /// The query of a listing that names none: twenty posts.
    fn default() -> (q: Query)
        ensures
            q.count == 20,
    {
        Query { count: 20 }
    }
}

/// How many posts a listing loads: the count of its query, or that of the
/// default query where the request gave none.
pub open spec fn limit_of(query: Option<Query>) -> i64 {
    match query {
        Some(q) => q.count,
        None => 20,
    }
}

/// How many posts a listing loads.
pub fn post_limit(query: Option<Query>) -> (limit: i64)
    ensures
        limit == limit_of(query),
        query matches Some(q) ==> limit == q.count,
        query is None ==> limit == 20,
{
    let q = match query {
        Some(q) => q,
        None => Query::default(),
    };
    q.count
}

/// A listing loads exactly the count its query asks for, whatever that count
/// is, and twenty posts only where the request gave no query.
pub proof fn law_limit_is_requested_count(q: Query)
    ensures
        limit_of(Some(q)) == q.count,
        limit_of(None) == 20,
        forall|n: i64| #[trigger] limit_of(Some(Query { count: n })) == n,
{
}

/// The routes of the posts API.
#[derive(Clone, Copy, Debug, PartialEq, Eq, Structural)]
pub enum PostsRoute {
    /// `GET /api/v1/posts/`: list the posts.
    List,
    /// `POST /api/v1/posts/`: create a post from the JSON body.
    Create,
    /// `GET /api/v1/posts/<id>/`: the post with that id.
    Find(i32),
}

/// The listing route, given the segments after the prefix.
pub open spec fn list_outcome(method: Method, rest: Seq<Seq<u8>>) -> Outcome<PostsRoute> {
    if method != Method::Get {
        Err(Rejection::MethodNotAllowed)
    } else if rest.len() == 0 {
        Ok((PostsRoute::List, 0))
    } else {
        Err(Rejection::NotFound)
    }
}

/// The creating route, given the segments after the prefix.
pub open spec fn create_outcome(method: Method, rest: Seq<Seq<u8>>) -> Outcome<PostsRoute> {
    if method != Method::Post {
        Err(Rejection::MethodNotAllowed)
    } else if rest.len() == 0 {
        Ok((PostsRoute::Create, 0))
    } else {
        Err(Rejection::NotFound)
    }
}

/// The lookup route, given the segments after the prefix: one segment that
/// holds an `i32`, and nothing after it.
pub open spec fn find_outcome(method: Method, rest: Seq<Seq<u8>>) -> Outcome<PostsRoute> {
    if method != Method::Get {
        Err(Rejection::MethodNotAllowed)
    } else if rest.len() == 0 {
        Err(Rejection::NotFound)
    } else {
        match segment_i32(rest[0]) {
            None => Err(Rejection::BadRequest),
            Some(id) => if rest.len() == 1 {
                Ok((PostsRoute::Find(id), 1))
            } else {
                Err(Rejection::NotFound)
            },
        }
    }
}

/// The route table of the posts API: below the prefix `api/v1/posts`, the
/// listing, the creating and the lookup route, tried as alternatives.
pub open spec fn posts_route(method: Method, segs: Seq<Seq<u8>>) -> Result<PostsRoute, Rejection> {
    if segs.len() >= 3 && segment_is(segs[0], "api"@) && segment_is(segs[1], "v1"@) && segment_is(
        segs[2],
        "posts"@,
    ) {
        let rest = segs.skip(3);
        target(
            either(
                list_outcome(method, rest),
                either(create_outcome(method, rest), find_outcome(method, rest)),
            ),
        )
    } else {
        Err(Rejection::NotFound)
    }
}

fn list_alternative(method: Method, rest: usize) -> (r: Outcome<PostsRoute>)
    ensures
        forall|s: Seq<Seq<u8>>| s.len() == rest ==> r == list_outcome(method, s),
{
    if method != Method::Get {
        Err(Rejection::MethodNotAllowed)
    } else if rest == 0 {
        Ok((PostsRoute::List, 0))
    } else {
        Err(Rejection::NotFound)
    }
}

fn create_alternative(method: Method, rest: usize) -> (r: Outcome<PostsRoute>)
    ensures
        forall|s: Seq<Seq<u8>>| s.len() == rest ==> r == create_outcome(method, s),
{
    if method != Method::Post {
        Err(Rejection::MethodNotAllowed)
    } else if rest == 0 {
        Ok((PostsRoute::Create, 0))
    } else {
        Err(Rejection::NotFound)
    }
}

fn find_alternative(method: Method, segs: &Vec<Vec<u8>>) -> (r: Outcome<PostsRoute>)
    requires
        segs@.len() >= 3,
    ensures
        r == find_outcome(method, segment_views(segs@).skip(3)),
{
    let ghost rest = segment_views(segs@).skip(3);
    if method != Method::Get {
        Err(Rejection::MethodNotAllowed)
    } else if segs.len() == 3 {
        Err(Rejection::NotFound)
    } else {
        assert(rest[0] == segs@[3]@);
        match decode_i32_segment(segs[3].as_slice()) {
            None => Err(Rejection::BadRequest),
            Some(id) => if segs.len() == 4 {
                Ok((PostsRoute::Find(id), 1))
            } else {
                Err(Rejection::NotFound)
            },
        }
    }
}

/// Routes a request of the posts API by its method and path.
pub fn route_posts(method: Method, path: &[u8]) -> (r: Result<PostsRoute, Rejection>)
    ensures
        r == posts_route(method, path_segments(path@)),
{
    let segs = split_path(path);
    let ghost views = segment_views(segs@);
    if segs.len() >= 3 && segment_matches(&segs[0], "api") && segment_matches(&segs[1], "v1")
        && segment_matches(&segs[2], "posts") {
        let rest = segs.len() - 3;
        let ghost rest_views = views.skip(3);
        let list = list_alternative(method, rest);
        let create = create_alternative(method, rest);
        let find = find_alternative(method, &segs);
        assert(list == list_outcome(method, rest_views));
        assert(create == create_outcome(method, rest_views));
        into_target(pick_route(list, pick_route(create, find)))
    } else {
        proof {
            if segs@.len() >= 3 {
                assert(views[0] == segs@[0]@);
                assert(views[1] == segs@[1]@);
                assert(views[2] == segs@[2]@);
            }
        }
        Err(Rejection::NotFound)
    }
}

/// The path `/api/v1/posts/<id>` of the post with the given id.
pub open spec fn post_path(id: i32) -> Seq<u8> {
    seq![47u8, 97, 112, 105, 47, 118, 49, 47, 112, 111, 115, 116, 115, 47] + decimal_text(id)
}

/// Every post is found by a `GET` on `/api/v1/posts/` followed by its id in decimal.
pub proof fn law_every_post_is_reachable(id: i32)
    ensures
        posts_route(Method::Get, path_segments(post_path(id))) == Ok::<PostsRoute, Rejection>(
            PostsRoute::Find(id),
        ),
{
    let p = post_path(id);
    let t = decimal_text(id);
    lemma_decimal_text_plain(id);
    lemma_decimal_digits(if id < 0 { (-id) as nat } else { id as nat });
    assert(t.len() > 0);
    assert(p.len() == 14 + t.len());
    assert forall|k: int| 14 <= k < p.len() implies p[k] != 47 by {
        assert(p[k] == t[k - 14]);
    }
    lemma_segments_step(p, 1, 4);
    lemma_segments_step(p, 5, 7);
    lemma_segments_step(p, 8, 13);
    lemma_segments_last(p, 14);
    let segs = path_segments(p);
    assert(p.subrange(14, p.len() as int) =~= t);
    assert(segs =~= seq![p.subrange(1, 4), p.subrange(5, 7), p.subrange(8, 13), t]);
    reveal_strlit("api");
    reveal_strlit("v1");
    reveal_strlit("posts");
    assert(segment_is(segs[0], "api"@));
    assert(segment_is(segs[1], "v1"@));
    assert(segment_is(segs[2], "posts"@));
    law_decimal_round_trip(id);
    assert(segs.skip(3) =~= seq![t]);
}

/// Paths outside `/api/v1/posts` are not found, whatever the method, and
/// below it a method other than `GET` and `POST` is refused.
pub proof fn law_posts_refusals(method: Method, segs: Seq<Seq<u8>>)
    ensures
        !(segs.len() >= 3 && segment_is(segs[0], "api"@) && segment_is(segs[1], "v1"@)
            && segment_is(segs[2], "posts"@)) ==> posts_route(method, segs) == Err::<
            PostsRoute,
            Rejection,
        >(Rejection::NotFound),
        method != Method::Get && method != Method::Post && posts_route(method, segs) != Err::<
            PostsRoute,
            Rejection,
        >(Rejection::NotFound) ==> posts_route(method, segs) == Err::<PostsRoute, Rejection>(
            Rejection::MethodNotAllowed,
        ),
{
}

/// The status of a successful answer on each route: a created post is
/// answered with 201, the rest with 200.
pub open spec fn success_status_of(route: PostsRoute) -> u16 {
    match route {
        PostsRoute::Create => CREATED,
        _ => OK,
    }
}

impl PostsRoute {
    /// The status of a successful answer on this route.
    pub fn success_status(&self) -> (s: u16)
        ensures
            s == success_status_of(*self),
    {
        match self {
            PostsRoute::Create => CREATED,
            _ => OK,
        }
    }
}

/// The post a lookup found, or the `404 not found` answer where it found none.
pub fn require_found<P>(found: Option<P>) -> (r: Result<P, Failure>)
    ensures
        match found {
            Some(p) => r == Ok::<P, Failure>(p),
            None => r matches Err(f) && f.status == NOT_FOUND && f.message@ == "not found"@,
        },
{
    match found {
        Some(p) => Ok(p),
        None => Err(Failure { status: NOT_FOUND, message: String::from_str("not found") }),
    }
}

} // verus!
