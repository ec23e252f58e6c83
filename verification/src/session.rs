//! A login flow kept in a session: a greeting for who is signed in, a login
//! form, signing in and signing out.
use vstd::prelude::*;
use crate::path::{path_segments, segment_views, segment_is, split_path, segment_matches};
use crate::reply::{Reply, html, redirect_to, with_body, html_headers, redirect_headers, valid_header_value, header_value_char, OK, FOUND, UNAUTHORIZED};
use crate::routing::{Method, Rejection, Outcome, either, target, pick_route, into_target};

verus! {

/// What the session stores about the user who signed in.
pub struct Login {
    pub username: String,
}

/// The form posted to sign in.
pub struct LoginForm {
    pub username: String,
}

/// How a request changes the session.
pub enum SessionChange {
    /// The session now holds this login.
    Store(Login),
    /// The session no longer holds a login.
    Clear,
}

/// The change as plain values: `Some(u)` replaces what the session holds by
/// `u` (`Some(name)` for a login of that name, `None` for no login); `None`
/// would leave the session as it was, as the pages that only read it do.
pub open spec fn change_of(change: SessionChange) -> Option<Option<Seq<char>>> {
    match change {
        SessionChange::Store(login) => Some(Some(login.username@)),
        SessionChange::Clear => Some(None),
    }
}

/// Who the session holds after a change: the session holds the name of the
/// user who signed in, or nothing.
pub open spec fn stored_after(before: Option<Seq<char>>, change: Option<Option<Seq<char>>>) -> Option<
    Seq<char>,
> {
    match change {
        None => before,
        Some(now) => now,
    }
}

/// Who a session read shows as signed in: the name of the stored login, and
/// nobody where the session holds none or could not be read.
pub open spec fn signed_in(read: Result<Option<Login>, ()>) -> Option<Seq<char>> {
    match read {
        Ok(Some(login)) => Some(login.username@),
        _ => None,
    }
}

/// A reply with a text body as plain values: status, headers and body.
pub open spec fn page_of(r: Reply<String>) -> (u16, Seq<(Seq<char>, Seq<char>)>, Seq<char>) {
    (r.status, r.header_pairs(), r.body@)
}

/// The greeting page of a signed-in user.
pub open spec fn greeting_text(username: Seq<char>) -> Seq<char> {
    "Hello, "@ + username
        + "! <br />\n<form method=\"post\" action=\"/logout\">\n<input type=\"submit\" value=\"Log out\" />\n</form>"@
}

/// The page that asks a visitor to sign in.
pub open spec fn login_link_text() -> Seq<char> {
    "<a href=\"/login\">Log in</a>"@
}

/// The login form.
pub open spec fn login_form_text() -> Seq<char> {
    "login form\n<form method=\"post\">\n<input type=\"text\" name=\"username\">\n<input type=\"submit\">\n</form>"@
}

/// The answer to `GET /`: the greeting of who is signed in, with status 200,
/// or status 401 and a link to the login form for nobody.
pub open spec fn greet_page(user: Option<Seq<char>>) -> (u16, Seq<(Seq<char>, Seq<char>)>, Seq<char>) {
    match user {
        Some(name) => (OK, html_headers(), greeting_text(name)),
        None => (UNAUTHORIZED, html_headers(), login_link_text()),
    }
}

/// A redirect to the front page, with an empty body.
pub open spec fn to_front_page() -> (u16, Seq<(Seq<char>, Seq<char>)>, Seq<char>) {
    (FOUND, redirect_headers("/"@), Seq::empty())
}

/// The answer to `GET /login/`: the signed-in user goes back to the front
/// page, anybody else gets the login form.
pub open spec fn login_page_of(user: Option<Seq<char>>) -> (u16, Seq<(Seq<char>, Seq<char>)>, Seq<char>) {
    match user {
        Some(_) => to_front_page(),
        None => (OK, html_headers(), login_form_text()),
    }
}

/// The change that signing in as `username` makes.
pub open spec fn sign_in_change(username: Seq<char>) -> Option<Option<Seq<char>>> {
    Some(Some(username))
}

/// The change that signing out makes.
pub open spec fn sign_out_change() -> Option<Option<Seq<char>>> {
    Some(None)
}

/// A redirect to `/` with an empty text body.
fn redirect_home() -> (r: Reply<String>)
    ensures
        page_of(r) == to_front_page(),
{
    proof {
        reveal_strlit("/");
        assert(valid_header_value("/"@)) by {
            assert(header_value_char("/"@[0]));
        }
    }
    let r = with_body(redirect_to("/"), String::new());
    assert(r.body@ =~= Seq::<char>::empty());
    r
}

/// Answers `GET /` for the session as it was read.
pub fn greet(session: &Result<Option<Login>, ()>) -> (r: Reply<String>)
    ensures
        page_of(r) == greet_page(signed_in(*session)),
        session matches Ok(Some(login)) ==> r.status == OK && r.header_pairs() == html_headers()
            && r.body@ == "Hello, "@ + login.username@
            + "! <br />\n<form method=\"post\" action=\"/logout\">\n<input type=\"submit\" value=\"Log out\" />\n</form>"@,
        !(session matches Ok(Some(_))) ==> r.status == UNAUTHORIZED && r.header_pairs()
            == html_headers() && r.body@ == "<a href=\"/login\">Log in</a>"@,
{
    match session {
        Ok(Some(login)) => {
            let mut body = String::from_str("Hello, ");
            body.append(login.username.as_str());
            body.append(
                "! <br />\n<form method=\"post\" action=\"/logout\">\n<input type=\"submit\" value=\"Log out\" />\n</form>",
            );
            html(body)
        },
        _ => {
            let page = html(String::from_str("<a href=\"/login\">Log in</a>"));
            Reply { status: UNAUTHORIZED, headers: page.headers, body: page.body }
        },
    }
}

/// Answers `GET /login/` for the session as it was read.
pub fn login_page(session: &Result<Option<Login>, ()>) -> (r: Reply<String>)
    ensures
        page_of(r) == login_page_of(signed_in(*session)),
        session matches Ok(Some(_)) ==> r.status == FOUND && r.header_pairs() == redirect_headers(
            "/"@,
        ) && r.body@ == Seq::<char>::empty(),
        !(session matches Ok(Some(_))) ==> r.status == OK && r.header_pairs() == html_headers()
            && r.body@ == login_form_text(),
{
    match session {
        Ok(Some(_)) => redirect_home(),
        _ => html(
            String::from_str(
                "login form\n<form method=\"post\">\n<input type=\"text\" name=\"username\">\n<input type=\"submit\">\n</form>",
            ),
        ),
    }
}

/// Answers `POST /login/`: stores the login of the posted name and redirects
/// to the front page.
pub fn login_post(form: LoginForm) -> (r: (SessionChange, Reply<String>))
    ensures
        change_of(r.0) == sign_in_change(form.username@),
        page_of(r.1) == to_front_page(),
{
    (SessionChange::Store(Login { username: form.username }), redirect_home())
}

/// Answers `POST /logout/`: clears the session and redirects to the front page.
pub fn logout() -> (r: (SessionChange, Reply<String>))
    ensures
        change_of(r.0) == sign_out_change(),
        page_of(r.1) == to_front_page(),
{
    (SessionChange::Clear, redirect_home())
}

/// Whoever the session holds a login for is signed in under exactly the
/// stored name, whatever characters it has; a session without a login, or one
/// that could not be read, has nobody signed in.
pub proof fn law_signed_in_is_stored_name(login: Login)
    ensures
        signed_in(Ok(Some(login))) == Some(login.username@),
        signed_in(Ok(None)) == None::<Seq<char>>,
        signed_in(Err(())) == None::<Seq<char>>,
        greet_page(signed_in(Ok(Some(login)))).0 == OK,
        greet_page(signed_in(Ok(Some(login)))).2 == "Hello, "@ + login.username@
            + "! <br />\n<form method=\"post\" action=\"/logout\">\n<input type=\"submit\" value=\"Log out\" />\n</form>"@,
        login_page_of(signed_in(Ok(Some(login)))) == to_front_page(),
{
}

/// Once a user has signed in, whatever the session held before, the front
/// page greets that user by name.
pub proof fn law_greeting_after_sign_in(before: Option<Seq<char>>, username: Seq<char>)
    ensures
        greet_page(stored_after(before, sign_in_change(username))) == (
            OK,
            html_headers(),
            greeting_text(username),
        ),
{
}

/// Once the user has signed out, the front page asks to sign in again.
pub proof fn law_sign_in_asked_after_sign_out(before: Option<Seq<char>>)
    ensures
        greet_page(stored_after(before, sign_out_change())) == (
            UNAUTHORIZED,
            html_headers(),
            login_link_text(),
        ),
{
}

/// A signed-in user who asks for the login form goes back to the front page;
/// after signing out the form is shown again.
pub proof fn law_login_form_follows_session(before: Option<Seq<char>>, username: Seq<char>)
    ensures
        login_page_of(stored_after(before, sign_in_change(username))) == to_front_page(),
        login_page_of(stored_after(before, sign_out_change())) == (
            OK,
            html_headers(),
            login_form_text(),
        ),
{
}

/// The routes of the login flow.
#[derive(Clone, Copy, Debug, PartialEq, Eq, Structural)]
pub enum SessionRoute {
    /// `GET /`
    Greet,
    /// `GET /login/`
    LoginPage,
    /// `POST /login/`
    SubmitLogin,
    /// `POST /logout/`
    Logout,
}

/// A route of exactly one literal segment for one method.
pub open spec fn word_outcome(
    method: Method,
    wanted: Method,
    segs: Seq<Seq<u8>>,
    word: Seq<char>,
    route: SessionRoute,
) -> Outcome<SessionRoute> {
    if method != wanted {
        Err(Rejection::MethodNotAllowed)
    } else if segs.len() == 1 && segment_is(segs[0], word) {
        Ok((route, 1))
    } else {
        Err(Rejection::NotFound)
    }
}

/// The front page route: `GET` on the empty path.
pub open spec fn greet_outcome(method: Method, segs: Seq<Seq<u8>>) -> Outcome<SessionRoute> {
    if method != Method::Get {
        Err(Rejection::MethodNotAllowed)
    } else if segs.len() == 0 {
        Ok((SessionRoute::Greet, 0))
    } else {
        Err(Rejection::NotFound)
    }
}

/// The route table of the login flow: the front page, the login form,
/// posting the form and signing out, tried as alternatives.
pub open spec fn session_route(method: Method, segs: Seq<Seq<u8>>) -> Result<SessionRoute, Rejection> {
    target(
        either(
            greet_outcome(method, segs),
            either(
                word_outcome(method, Method::Get, segs, "login"@, SessionRoute::LoginPage),
                either(
                    word_outcome(method, Method::Post, segs, "login"@, SessionRoute::SubmitLogin),
                    word_outcome(method, Method::Post, segs, "logout"@, SessionRoute::Logout),
                ),
            ),
        ),
    )
}

fn word_alternative(
    method: Method,
    wanted: Method,
    segs: &Vec<Vec<u8>>,
    word: &str,
    route: SessionRoute,
) -> (r: Outcome<SessionRoute>)
    ensures
        r == word_outcome(method, wanted, segment_views(segs@), word@, route),
{
    if method != wanted {
        Err(Rejection::MethodNotAllowed)
    } else if segs.len() == 1 && segment_matches(&segs[0], word) {
        Ok((route, 1))
    } else {
        proof {
            if segs@.len() == 1 {
                assert(segment_views(segs@)[0] == segs@[0]@);
            }
        }
        Err(Rejection::NotFound)
    }
}

/// Routes a request of the login flow by its method and path.
pub fn route_session(method: Method, path: &[u8]) -> (r: Result<SessionRoute, Rejection>)
    ensures
        r == session_route(method, path_segments(path@)),
{
    let segs = split_path(path);
    let greet = if method != Method::Get {
        Err(Rejection::MethodNotAllowed)
    } else if segs.len() == 0 {
        Ok((SessionRoute::Greet, 0))
    } else {
        Err(Rejection::NotFound)
    };
    let form = word_alternative(method, Method::Get, &segs, "login", SessionRoute::LoginPage);
    let submit = word_alternative(method, Method::Post, &segs, "login", SessionRoute::SubmitLogin);
    let out = word_alternative(method, Method::Post, &segs, "logout", SessionRoute::Logout);
    into_target(pick_route(greet, pick_route(form, pick_route(submit, out))))
}

/// The login flow never answers that a path was not found, nor that a path
/// held a bad value: a request that no route takes is refused for its method,
/// since routes for both `GET` and `POST` exist.
pub proof fn law_session_refuses_by_method(method: Method, segs: Seq<Seq<u8>>)
    ensures
        session_route(method, segs) is Err ==> session_route(method, segs) == Err::<
            SessionRoute,
            Rejection,
        >(Rejection::MethodNotAllowed),
{
}

} // verus!
