use std::sync::Arc;

use web_examples::logging::{recover_reply, route_text, text_page, TextRoute};
use web_examples::pages::{page_reply, route_pages, template, Page};
use web_examples::posts::{post_limit, require_found, route_posts, PostsRoute, Query};
use web_examples::reply::Reply;
use web_examples::routing::{Method, Rejection};
use web_examples::session::{greet, login_page, login_post, logout, route_session, Login, LoginForm, SessionChange, SessionRoute};

fn pairs<B>(r: &Reply<B>) -> Vec<(String, String)> {
    r.headers.iter().map(|h| (h.name.clone(), h.value.clone())).collect()
}

fn html_pairs() -> Vec<(String, String)> {
    vec![("content-type".to_string(), "text/html; charset=utf-8".to_string())]
}

fn home_pairs() -> Vec<(String, String)> {
    vec![("location".to_string(), "/".to_string())]
}

const GREETING_TAIL: &str = "! <br />\n<form method=\"post\" action=\"/logout\">\n<input type=\"submit\" value=\"Log out\" />\n</form>";
const LOGIN_FORM: &str = "login form\n<form method=\"post\">\n<input type=\"text\" name=\"username\">\n<input type=\"submit\">\n</form>";

/// Applies a session change to what the session held.
fn apply(_before: Option<Login>, change: SessionChange) -> Option<Login> {
    match change {
        SessionChange::Store(login) => Some(login),
        SessionChange::Clear => None,
    }
}

#[test]
fn default_query_loads_twenty_posts() {
    let q: Query = Default::default();
    assert_eq!(q.count, 20);
    assert_eq!(post_limit(None), 20);
    assert_eq!(post_limit(Some(Query::new(5))), 5);
    assert_eq!(post_limit(Some(Query::new(-1))), -1);
}

#[test]
fn posts_routes() {
    assert_eq!(route_posts(Method::Get, b"/api/v1/posts"), Ok(PostsRoute::List));
    assert_eq!(route_posts(Method::Get, b"/api/v1/posts/"), Ok(PostsRoute::List));
    assert_eq!(route_posts(Method::Post, b"/api/v1/posts"), Ok(PostsRoute::Create));
    assert_eq!(route_posts(Method::Get, b"/api/v1/posts/42"), Ok(PostsRoute::Find(42)));
    assert_eq!(route_posts(Method::Get, b"/api/v1/posts/-3/"), Ok(PostsRoute::Find(-3)));
    assert_eq!(route_posts(Method::Get, b"/api/v1/posts/%34%32"), Ok(PostsRoute::Find(42)));
}

#[test]
fn posts_refusals() {
    assert_eq!(route_posts(Method::Get, b"/api/v1/posts/abc"), Err(Rejection::BadRequest));
    assert_eq!(route_posts(Method::Get, b"/api/v1/posts/99999999999"), Err(Rejection::BadRequest));
    assert_eq!(route_posts(Method::Post, b"/api/v1/posts/abc"), Err(Rejection::MethodNotAllowed));
    assert_eq!(route_posts(Method::Get, b"/api/v1/posts/12/extra"), Err(Rejection::MethodNotAllowed));
    assert_eq!(route_posts(Method::Put, b"/api/v1/posts"), Err(Rejection::MethodNotAllowed));
    assert_eq!(route_posts(Method::Get, b"/api/v2/posts"), Err(Rejection::NotFound));
    assert_eq!(route_posts(Method::Delete, b"/"), Err(Rejection::NotFound));
    assert_eq!(route_posts(Method::Get, b"/api/v1"), Err(Rejection::NotFound));
}

#[test]
fn every_post_is_reachable() {
    for id in [0, 1, 9, 10, 42, -1, -10, i32::MAX, i32::MIN] {
        let path = format!("/api/v1/posts/{}", id);
        assert_eq!(route_posts(Method::Get, path.as_bytes()), Ok(PostsRoute::Find(id)));
    }
}

#[test]
fn created_posts_answer_201() {
    assert_eq!(PostsRoute::Create.success_status(), 201);
    assert_eq!(PostsRoute::List.success_status(), 200);
    assert_eq!(PostsRoute::Find(1).success_status(), 200);
}

#[test]
fn missing_post_is_not_found() {
    assert_eq!(require_found(Some(7)).ok(), Some(7));
    let f = require_found::<i32>(None).err().unwrap();
    assert_eq!(f.status, 404);
    assert_eq!(f.message, "not found");
}

#[test]
fn greeting_of_signed_in_user() {
    let r = greet(&Ok(Some(Login { username: "alice".to_string() })));
    assert_eq!(r.status, 200);
    assert_eq!(pairs(&r), html_pairs());
    assert_eq!(r.body, format!("Hello, alice{}", GREETING_TAIL));
}

#[test]
fn greeting_asks_to_sign_in() {
    for session in [Ok(None), Err(())] {
        let r = greet(&session);
        assert_eq!(r.status, 401);
        assert_eq!(pairs(&r), html_pairs());
        assert_eq!(r.body, "<a href=\"/login\">Log in</a>");
    }
}

#[test]
fn login_page_shows_form_or_redirects() {
    let form = login_page(&Ok(None));
    assert_eq!(form.status, 200);
    assert_eq!(pairs(&form), html_pairs());
    assert_eq!(form.body, LOGIN_FORM);
    let broken = login_page(&Err(()));
    assert_eq!(broken.body, LOGIN_FORM);
    let back = login_page(&Ok(Some(Login { username: "bob".to_string() })));
    assert_eq!(back.status, 302);
    assert_eq!(pairs(&back), home_pairs());
    assert_eq!(back.body, "");
}

#[test]
fn signing_in_then_greeting() {
    let (change, reply) = login_post(LoginForm { username: "carol".to_string() });
    assert_eq!(reply.status, 302);
    assert_eq!(pairs(&reply), home_pairs());
    assert_eq!(reply.body, "");
    let stored = apply(Some(Login { username: "dave".to_string() }), change);
    let page = greet(&Ok(stored));
    assert_eq!(page.status, 200);
    assert_eq!(page.body, format!("Hello, carol{}", GREETING_TAIL));
}

#[test]
fn signing_out_then_greeting() {
    let (change, reply) = logout();
    assert_eq!(reply.status, 302);
    assert_eq!(pairs(&reply), home_pairs());
    let stored = apply(Some(Login { username: "erin".to_string() }), change);
    assert!(stored.is_none());
    let page = greet(&Ok(stored));
    assert_eq!(page.status, 401);
    let form = login_page(&Ok(None));
    assert_eq!(form.body, LOGIN_FORM);
}

#[test]
fn session_routes() {
    assert_eq!(route_session(Method::Get, b"/"), Ok(SessionRoute::Greet));
    assert_eq!(route_session(Method::Get, b"/login"), Ok(SessionRoute::LoginPage));
    assert_eq!(route_session(Method::Get, b"/login/"), Ok(SessionRoute::LoginPage));
    assert_eq!(route_session(Method::Post, b"/login"), Ok(SessionRoute::SubmitLogin));
    assert_eq!(route_session(Method::Post, b"/logout"), Ok(SessionRoute::Logout));
    assert_eq!(route_session(Method::Get, b"/logout"), Err(Rejection::MethodNotAllowed));
    assert_eq!(route_session(Method::Get, b"/nowhere"), Err(Rejection::MethodNotAllowed));
    assert_eq!(route_session(Method::Post, b"/"), Err(Rejection::MethodNotAllowed));
    assert_eq!(route_session(Method::Put, b"/login"), Err(Rejection::MethodNotAllowed));
}

#[test]
fn rendered_pages_and_render_errors() {
    let page = page_reply(Ok("<p>hi</p>".to_string())).ok().unwrap();
    assert_eq!(page.status, 200);
    assert_eq!(pairs(&page), html_pairs());
    assert_eq!(page.body, "<p>hi</p>");
    let failure = page_reply(Err("boom".to_string())).err().unwrap();
    assert_eq!(failure.status, 500);
    assert_eq!(failure.message, "boom");
}

#[test]
fn template_endpoint_renders_with_tera() {
    let mut engine = tera::Tera::default();
    engine.add_raw_template("hello.html", "Hello, {{ name }}!").unwrap();
    let engine = Arc::new(engine);
    let endpoint = template(engine.clone(), "hello.html".to_string()).wrap(());
    assert_eq!(endpoint.name, "hello.html");
    let mut ctx = tera::Context::new();
    ctx.insert("name", "world");
    let page = endpoint.render(&ctx).ok().unwrap();
    assert_eq!(page.status, 200);
    assert_eq!(pairs(&page), html_pairs());
    assert_eq!(page.body, "Hello, world!");
    let missing = template(engine, "absent.html".to_string()).wrap(());
    let failure = missing.render(&ctx).err().unwrap();
    assert_eq!(failure.status, 500);
    assert!(!failure.message.is_empty());
}

fn page_name(r: Result<Page, Rejection>) -> Result<String, Rejection> {
    r.map(|p| match p {
        Page::Index => "index".to_string(),
        Page::Detail(name) => format!("detail:{}", name),
        Page::Missing => "missing".to_string(),
    })
}

#[test]
fn template_site_routes() {
    assert_eq!(page_name(route_pages(Method::Get, b"/")), Ok("index".to_string()));
    assert_eq!(page_name(route_pages(Method::Get, b"/detail/foo")), Ok("detail:foo".to_string()));
    assert_eq!(page_name(route_pages(Method::Get, b"/detail/foo/bar")), Ok("detail:foo".to_string()));
    assert_eq!(page_name(route_pages(Method::Get, b"/detail/a%20b")), Ok("detail:a b".to_string()));
    assert_eq!(page_name(route_pages(Method::Get, b"/detail")), Ok("missing".to_string()));
    assert_eq!(page_name(route_pages(Method::Get, b"/detail/%FF")), Ok("missing".to_string()));
    assert_eq!(page_name(route_pages(Method::Get, b"/other")), Ok("missing".to_string()));
    assert_eq!(page_name(route_pages(Method::Post, b"/")), Err(Rejection::MethodNotAllowed));
    assert_eq!(page_name(route_pages(Method::Delete, b"/detail/x")), Err(Rejection::MethodNotAllowed));
}

#[test]
fn template_names_of_pages() {
    assert_eq!(Page::Index.template_name(), "index.html");
    assert_eq!(Page::Detail("x".to_string()).template_name(), "detail.html");
    assert_eq!(Page::Missing.template_name(), "404.html");
}

#[test]
fn text_service_routes() {
    assert_eq!(route_text(Method::Get, b"/index"), Ok(TextRoute::Index));
    assert_eq!(route_text(Method::Get, b"/index/more"), Ok(TextRoute::Index));
    assert_eq!(route_text(Method::Get, b"/created"), Ok(TextRoute::Created));
    assert_eq!(route_text(Method::Get, b"/"), Err(Rejection::NotFound));
    assert_eq!(route_text(Method::Get, b"/other"), Err(Rejection::NotFound));
    assert_eq!(route_text(Method::Post, b"/index"), Err(Rejection::MethodNotAllowed));
}

#[test]
fn text_pages_and_recovered_errors() {
    let index = text_page(TextRoute::Index);
    assert_eq!(index.status, 200);
    assert_eq!(index.body, "Index page");
    assert_eq!(pairs(&index), vec![("content-type".to_string(), "text/plain; charset=utf-8".to_string())]);
    let created = text_page(TextRoute::Created);
    assert_eq!(created.status, 201);
    assert_eq!(created.body, "created");
    let recovered = recover_reply(404, "not matched".to_string());
    assert_eq!(recovered.status, 404);
    assert!(recovered.headers.is_empty());
    assert_eq!(recovered.body, "not matched");
}
