//! Pages rendered from templates: an endpoint that renders a named template
//! with the value its inner endpoint produced, and the route table of a small
//! site of template pages.
use vstd::prelude::*;
use std::sync::Arc;
use tera::{Context, Tera};
use crate::path::{path_segments, segment_views, segment_is, segment_text, split_path, segment_matches, decode_text_segment};
use crate::reply::{Reply, Failure, html, html_headers, INTERNAL_SERVER_ERROR, OK};
use crate::routing::{Method, Rejection, Outcome, either, target, pick_route, into_target};

verus! {

/// A set of loaded templates.
#[verifier::external_type_specification]
#[verifier::external_body]
pub struct ExTera(Tera);

/// The values a template is rendered with.
#[verifier::external_type_specification]
#[verifier::external_body]
pub struct ExContext(Context);

/// Renders the template `name` of `engine` with `ctx` by `tera::Tera::render`,
/// and gives the text of its error where it fails. Whether it succeeds and what
/// it renders depends on the templates the engine loaded, which nothing here
/// describes, so nothing is stated of the result.
#[verifier::external_body]
fn tera_render(engine: &Tera, name: &str, ctx: &Context) -> (r: Result<String, String>) {
    engine.render(name, ctx).map_err(|err| err.to_string())
}

/// The answer to a rendering: the rendered text as an HTML page with status
/// 200, or status 500 with the text of the rendering error.
pub fn page_reply(rendered: Result<String, String>) -> (r: Result<Reply<String>, Failure>)
    ensures
        match rendered {
            Ok(text) => r matches Ok(reply) && reply.status == OK && reply.header_pairs()
                == html_headers() && reply.body@ == text@,
            Err(message) => r matches Err(f) && f.status == INTERNAL_SERVER_ERROR && f.message@
                == message@,
        },
{
    match rendered {
        Ok(text) => Ok(html(text)),
        Err(message) => Err(Failure { status: INTERNAL_SERVER_ERROR, message }),
    }
}

/// A wrapper that renders the template `name` of `engine`.
pub struct Template {
    pub engine: Arc<Tera>,
    pub name: String,
}

/// A wrapper that renders the template `name` of `engine`.
pub fn template(engine: Arc<Tera>, name: String) -> (t: Template)
    ensures
        t.engine == engine,
        t.name@ == name@,
{
    Template { engine, name }
}

/// An endpoint whose output is rendered with a template.
pub struct TemplateEndpoint<E> {
    pub endpoint: E,
    pub engine: Arc<Tera>,
    pub name: String,
}

impl Template {
    /// Puts the template around `endpoint`.
    pub fn wrap<E>(self, endpoint: E) -> (r: TemplateEndpoint<E>)
        ensures
            r.endpoint == endpoint,
            r.engine == self.engine,
            r.name@ == self.name@,
    {
        TemplateEndpoint { endpoint, engine: self.engine, name: self.name }
    }
}

impl<E> TemplateEndpoint<E> {
    /// Renders the template with the values the inner endpoint produced: an
    /// HTML page with status 200 holding the rendered text, or status 500 with
    /// the text of the error where the templates fail to render.
    pub fn render(&self, ctx: &Context) -> (r: Result<Reply<String>, Failure>)
        ensures
            r matches Ok(reply) ==> reply.status == OK && reply.header_pairs() == html_headers(),
            r matches Err(f) ==> f.status == INTERNAL_SERVER_ERROR,
    {
        let engine: &Tera = &*self.engine;
        page_reply(tera_render(engine, self.name.as_str(), ctx))
    }
}

/// The pages of the template site.
pub enum Page {
    /// `GET /`
    Index,
    /// `GET /detail/<name>`, with the decoded name.
    Detail(String),
    /// Any other `GET`.
    Missing,
}

/// A page as plain values.
pub enum PageView {
    Index,
    Detail(Seq<char>),
    Missing,
}

impl Page {
    /// The page as plain values.
    pub open spec fn spec_view(&self) -> PageView {
        match self {
            Page::Index => PageView::Index,
            Page::Detail(name) => PageView::Detail(name@),
            Page::Missing => PageView::Missing,
        }
    }

    /// The template a page is rendered with.
    pub fn template_name(&self) -> (name: &'static str)
        ensures
            name@ == template_of(self.spec_view()),
    {
        match self {
            Page::Index => "index.html",
            Page::Detail(_) => "detail.html",
            Page::Missing => "404.html",
        }
    }
}

/// The template of each page.
pub open spec fn template_of(page: PageView) -> Seq<char> {
    match page {
        PageView::Index => "index.html"@,
        PageView::Detail(_) => "detail.html"@,
        PageView::Missing => "404.html"@,
    }
}

/// An outcome with its page as plain values.
pub open spec fn outcome_view(o: Outcome<Page>) -> Outcome<PageView> {
    match o {
        Ok((page, n)) => Ok((page.spec_view(), n)),
        Err(e) => Err(e),
    }
}

/// The front page route: `GET` on the empty path.
pub open spec fn index_outcome(method: Method, segs: Seq<Seq<u8>>) -> Outcome<PageView> {
    if method != Method::Get {
        Err(Rejection::MethodNotAllowed)
    } else if segs.len() == 0 {
        Ok((PageView::Index, 0))
    } else {
        Err(Rejection::NotFound)
    }
}

/// The detail route: `GET` on `detail` and a segment that holds text; later
/// segments are left alone.
pub open spec fn detail_outcome(method: Method, segs: Seq<Seq<u8>>) -> Outcome<PageView> {
    if method != Method::Get {
        Err(Rejection::MethodNotAllowed)
    } else if segs.len() < 2 || !segment_is(segs[0], "detail"@) {
        Err(Rejection::NotFound)
    } else {
        match segment_text(segs[1]) {
            Some(name) => Ok((PageView::Detail(name), 2)),
            None => Err(Rejection::BadRequest),
        }
    }
}

/// The fallback route: any `GET`.
pub open spec fn missing_outcome(method: Method) -> Outcome<PageView> {
    if method != Method::Get {
        Err(Rejection::MethodNotAllowed)
    } else {
        Ok((PageView::Missing, 0))
    }
}

/// The route table of the template site: the front page or the detail page,
/// and the fallback page for the rest.
pub open spec fn pages_route(method: Method, segs: Seq<Seq<u8>>) -> Result<PageView, Rejection> {
    target(
        either(
            either(index_outcome(method, segs), detail_outcome(method, segs)),
            missing_outcome(method),
        ),
    )
}

/// A routing result with its page as plain values.
pub open spec fn routed_view(r: Result<Page, Rejection>) -> Result<PageView, Rejection> {
    match r {
        Ok(page) => Ok(page.spec_view()),
        Err(e) => Err(e),
    }
}

fn detail_alternative(method: Method, segs: &Vec<Vec<u8>>) -> (r: Outcome<Page>)
    ensures
        outcome_view(r) == detail_outcome(method, segment_views(segs@)),
{
    let ghost views = segment_views(segs@);
    if method != Method::Get {
        return Err(Rejection::MethodNotAllowed);
    }
    if segs.len() < 2 {
        return Err(Rejection::NotFound);
    }
    assert(views[0] == segs@[0]@);
    assert(views[1] == segs@[1]@);
    if !segment_matches(&segs[0], "detail") {
        return Err(Rejection::NotFound);
    }
    match decode_text_segment(segs[1].as_slice()) {
        Some(name) => Ok((Page::Detail(name), 2)),
        None => Err(Rejection::BadRequest),
    }
}

/// Routes a request of the template site by its method and path.
pub fn route_pages(method: Method, path: &[u8]) -> (r: Result<Page, Rejection>)
    ensures
        routed_view(r) == pages_route(method, path_segments(path@)),
{
    let segs = split_path(path);
    let ghost views = segment_views(segs@);
    let index: Outcome<Page> = if method != Method::Get {
        Err(Rejection::MethodNotAllowed)
    } else if segs.len() == 0 {
        Ok((Page::Index, 0))
    } else {
        Err(Rejection::NotFound)
    };
    let detail = detail_alternative(method, &segs);
    let missing: Outcome<Page> = if method != Method::Get {
        Err(Rejection::MethodNotAllowed)
    } else {
        Ok((Page::Missing, 0))
    };
    assert(outcome_view(index) == index_outcome(method, views));
    assert(outcome_view(missing) == missing_outcome(method));
    let inner = pick_route(index, detail);
    assert(outcome_view(inner) == either(index_outcome(method, views), detail_outcome(method, views)));
    let all = pick_route(inner, missing);
    assert(outcome_view(all) == either(outcome_view(inner), missing_outcome(method)));
    into_target(all)
}

/// Every `GET` request gets a page, and every other request is refused for
/// its method.
pub proof fn law_pages_answer_every_get(method: Method, segs: Seq<Seq<u8>>)
    ensures
        method == Method::Get ==> pages_route(method, segs) is Ok,
        method != Method::Get ==> pages_route(method, segs) == Err::<PageView, Rejection>(
            Rejection::MethodNotAllowed,
        ),
{
}

} // verus!
