use web_examples::path::{decode_i32_segment, decode_text_segment, parse_i32, segment_matches, split_path};
use web_examples::reply::{html, redirect_to, try_redirect_to, with_body, Reply};
use web_examples::routing::{pick_route, Rejection};

fn pairs<B>(r: &Reply<B>) -> Vec<(String, String)> {
    r.headers.iter().map(|h| (h.name.clone(), h.value.clone())).collect()
}

fn segs(path: &str) -> Vec<String> {
    split_path(path.as_bytes())
        .into_iter()
        .map(|s| String::from_utf8(s).unwrap())
        .collect()
}

#[test]
fn html_page_has_status_200_and_html_type() {
    let r = html("hi".to_string());
    assert_eq!(r.status, 200);
    assert_eq!(pairs(&r), vec![("content-type".to_string(), "text/html; charset=utf-8".to_string())]);
    assert_eq!(r.body, "hi");
}

#[test]
fn redirect_has_location_header() {
    let r = redirect_to("/somewhere");
    assert_eq!(r.status, 302);
    assert_eq!(pairs(&r), vec![("location".to_string(), "/somewhere".to_string())]);
}

#[test]
fn redirect_refuses_control_characters() {
    assert!(try_redirect_to("/a\nb").is_none());
    assert!(try_redirect_to("/a\u{7f}").is_none());
    let tab = try_redirect_to("/a\tb").unwrap();
    assert_eq!(tab.status, 302);
    let accented = try_redirect_to("/caf\u{e9}").unwrap();
    assert_eq!(pairs(&accented), vec![("location".to_string(), "/caf\u{e9}".to_string())]);
}

#[test]
fn with_body_keeps_status_and_headers() {
    let r = with_body(redirect_to("/"), "");
    assert_eq!(r.status, 302);
    assert_eq!(r.body, "");
    assert_eq!(pairs(&r), vec![("location".to_string(), "/".to_string())]);
}

#[test]
fn split_path_follows_the_segment_cursor() {
    assert_eq!(segs("/"), Vec::<String>::new());
    assert_eq!(segs("/a/b"), vec!["a", "b"]);
    assert_eq!(segs("/a/"), vec!["a"]);
    assert_eq!(segs("/a//b"), vec!["a", "", "b"]);
    assert_eq!(segs("//"), vec![""]);
    assert_eq!(segs("/foo/bar.txt"), vec!["foo", "bar.txt"]);
    assert_eq!(segs(""), Vec::<String>::new());
}

#[test]
fn segment_matching_compares_every_character() {
    assert!(segment_matches(&b"posts".to_vec(), "posts"));
    assert!(!segment_matches(&b"post".to_vec(), "posts"));
    assert!(!segment_matches(&b"Posts".to_vec(), "posts"));
    assert!(segment_matches(&Vec::new(), ""));
}

#[test]
fn text_segments_are_percent_decoded() {
    assert_eq!(decode_text_segment(b"%41b").unwrap(), "Ab");
    assert_eq!(decode_text_segment(b"a%2Fb").unwrap(), "a/b");
    assert_eq!(decode_text_segment(b"%4").unwrap(), "%4");
    assert_eq!(decode_text_segment(b"%zz").unwrap(), "%zz");
    assert_eq!(decode_text_segment(b"caf%C3%A9").unwrap(), "caf\u{e9}");
    assert!(decode_text_segment(b"%FF").is_none());
}

#[test]
fn decimal_literals_parse_as_i32() {
    assert_eq!(parse_i32(b"42"), Some(42));
    assert_eq!(parse_i32(b"+7"), Some(7));
    assert_eq!(parse_i32(b"-15"), Some(-15));
    assert_eq!(parse_i32(b"007"), Some(7));
    assert_eq!(parse_i32(b"2147483647"), Some(i32::MAX));
    assert_eq!(parse_i32(b"-2147483648"), Some(i32::MIN));
    assert_eq!(parse_i32(b"2147483648"), None);
    assert_eq!(parse_i32(b"-2147483649"), None);
    assert_eq!(parse_i32(b"99999999999999999999"), None);
    assert_eq!(parse_i32(b""), None);
    assert_eq!(parse_i32(b"-"), None);
    assert_eq!(parse_i32(b"+"), None);
    assert_eq!(parse_i32(b"1a"), None);
    assert_eq!(parse_i32(b" 1"), None);
    assert_eq!(parse_i32(b"+-1"), None);
}

#[test]
fn decimal_literals_agree_with_std() {
    for s in ["0", "12", "-0", "+0", "2147483647", "2147483648", "-", "x", "", "1_0", "-2147483648"] {
        assert_eq!(parse_i32(s.as_bytes()), s.parse::<i32>().ok(), "literal {:?}", s);
    }
}

#[test]
fn i32_segments_are_decoded_first() {
    assert_eq!(decode_i32_segment(b"%34%32"), Some(42));
    assert_eq!(decode_i32_segment(b"%2D1"), Some(-1));
    assert_eq!(decode_i32_segment(b"%FF"), None);
}

#[test]
fn rejections_have_their_status() {
    assert_eq!(Rejection::NotFound.status(), 404);
    assert_eq!(Rejection::MethodNotAllowed.status(), 405);
    assert_eq!(Rejection::BadRequest.status(), 400);
}

#[test]
fn alternatives_combine_like_the_router() {
    assert_eq!(pick_route(Ok((1, 0usize)), Ok((2, 0usize))), Ok((1, 0)));
    assert_eq!(pick_route(Ok((1, 0usize)), Ok((2, 2usize))), Ok((2, 2)));
    assert_eq!(pick_route::<i32>(Err(Rejection::NotFound), Ok((2, 0usize))), Ok((2, 0)));
    assert_eq!(pick_route::<i32>(Err(Rejection::NotFound), Err(Rejection::MethodNotAllowed)), Err(Rejection::MethodNotAllowed));
    assert_eq!(pick_route::<i32>(Err(Rejection::BadRequest), Err(Rejection::MethodNotAllowed)), Err(Rejection::BadRequest));
    assert_eq!(pick_route::<i32>(Err(Rejection::NotFound), Err(Rejection::NotFound)), Err(Rejection::NotFound));
}
