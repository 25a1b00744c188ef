use hme_bridge::cookies::{
    build_cookie_header, cookie_context, decode_cookie_pairs, is_key, parse_cookies_from_json,
    required_context, CookieError, CookiePair, SESSION_TOKEN_COOKIE, WEBAUTH_TOKEN_COOKIE,
    WEBAUTH_USER_COOKIE,
};
use hme_bridge::json::parse_json;

const REQUIRED: [&str; 3] =
    ["X-APPLE-DS-WEB-SESSION-TOKEN", "X-APPLE-WEBAUTH-TOKEN", "X-APPLE-WEBAUTH-USER"];

fn cookie(name: &str, value: &str) -> CookiePair {
    CookiePair { name: name.to_string(), value: value.to_string() }
}

#[test]
fn required_cookie_names_are_fixed() {
    assert_eq!(SESSION_TOKEN_COOKIE, "X-APPLE-DS-WEB-SESSION-TOKEN");
    assert_eq!(WEBAUTH_TOKEN_COOKIE, "X-APPLE-WEBAUTH-TOKEN");
    assert_eq!(WEBAUTH_USER_COOKIE, "X-APPLE-WEBAUTH-USER");
}

#[test]
fn is_key_matches_exactly() {
    assert!(is_key("X-APPLE-WEBAUTH-USER", &REQUIRED));
    assert!(!is_key("x-apple-webauth-user", &REQUIRED));
    assert!(!is_key("X-APPLE-WEBAUTH", &REQUIRED));
    assert!(!is_key("anything", &[]));
}

#[test]
fn header_keeps_required_cookies_in_their_order() {
    let pairs = vec![
        cookie("X-APPLE-WEBAUTH-USER", "u"),
        cookie("other", "zzz"),
        cookie("X-APPLE-DS-WEB-SESSION-TOKEN", "s"),
        cookie("X-APPLE-WEBAUTH-TOKEN", "t"),
        cookie("dslang", "US-EN"),
    ];
    assert_eq!(
        build_cookie_header(&pairs, &REQUIRED),
        "X-APPLE-WEBAUTH-USER=u; X-APPLE-DS-WEB-SESSION-TOKEN=s; X-APPLE-WEBAUTH-TOKEN=t"
    );
}

#[test]
fn header_of_one_cookie_has_no_separator() {
    let pairs = vec![cookie("skip", "1"), cookie("X-APPLE-WEBAUTH-TOKEN", "t=1;x")];
    assert_eq!(build_cookie_header(&pairs, &REQUIRED), "X-APPLE-WEBAUTH-TOKEN=t=1;x");
}

#[test]
fn header_is_empty_without_required_cookies() {
    assert_eq!(build_cookie_header(&vec![], &REQUIRED), "");
    assert_eq!(build_cookie_header(&vec![cookie("a", "b")], &REQUIRED), "");
    assert_eq!(build_cookie_header(&vec![cookie("a", "b")], &[]), "");
}

#[test]
fn header_keeps_repeated_names() {
    let pairs = vec![cookie("k", "1"), cookie("k", "2"), cookie("k", "")];
    assert_eq!(build_cookie_header(&pairs, &["k"]), "k=1; k=2; k=");
}

#[test]
fn header_of_a_concatenation_joins_the_headers() {
    let first = vec![cookie("k", "1"), cookie("x", "0")];
    let second = vec![cookie("x", "9"), cookie("k", "2")];
    let both = vec![cookie("k", "1"), cookie("x", "0"), cookie("x", "9"), cookie("k", "2")];
    let expected = format!(
        "{}; {}",
        build_cookie_header(&first, &["k"]),
        build_cookie_header(&second, &["k"])
    );
    assert_eq!(build_cookie_header(&both, &["k"]), expected);
    assert_eq!(expected, "k=1; k=2");
}

#[test]
fn decode_cookie_pairs_reads_every_item() {
    let doc = parse_json("[{\"name\":\"a\",\"value\":\"1\",\"extra\":true},{\"value\":\"2\",\"name\":\"b\"}]")
        .unwrap();
    assert_eq!(decode_cookie_pairs(&doc), Some(vec![cookie("a", "1"), cookie("b", "2")]));
    assert_eq!(decode_cookie_pairs(&parse_json("[]").unwrap()), Some(vec![]));
}

#[test]
fn decode_cookie_pairs_wants_an_array_of_pairs() {
    for text in [
        "{}",
        "\"abc\"",
        "[{\"name\":\"a\"}]",
        "[{\"name\":\"a\",\"value\":1}]",
        "[{\"name\":null,\"value\":\"1\"}]",
        "[{\"name\":\"a\",\"value\":\"1\"}, 3]",
        "[[\"a\",\"1\"]]",
    ] {
        assert_eq!(decode_cookie_pairs(&parse_json(text).unwrap()), None, "{}", text);
    }
}

#[test]
fn parse_cookies_from_json_builds_the_header() {
    let text = "[{\"name\":\"X-APPLE-WEBAUTH-USER\",\"value\":\"v=1:s=0\"},\
                {\"name\":\"junk\",\"value\":\"j\"},\
                {\"name\":\"X-APPLE-WEBAUTH-TOKEN\",\"value\":\"tok\"}]";
    assert_eq!(
        parse_cookies_from_json(text, &REQUIRED),
        Ok("X-APPLE-WEBAUTH-USER=v=1:s=0; X-APPLE-WEBAUTH-TOKEN=tok".to_string())
    );
    assert_eq!(parse_cookies_from_json(text, &["junk"]), Ok("junk=j".to_string()));
}

#[test]
fn parse_cookies_from_json_tells_the_failures_apart() {
    assert_eq!(parse_cookies_from_json("abc123", &REQUIRED), Err(CookieError::NotJson));
    assert_eq!(parse_cookies_from_json("", &REQUIRED), Err(CookieError::NotJson));
    assert_eq!(parse_cookies_from_json("{}", &REQUIRED), Err(CookieError::NotCookiePairs));
    assert_eq!(parse_cookies_from_json("123", &REQUIRED), Err(CookieError::NotCookiePairs));
    assert_eq!(parse_cookies_from_json("[]", &REQUIRED), Ok(String::new()));
}

#[test]
fn cookie_context_of_a_missing_document_is_not_json() {
    assert_eq!(cookie_context(None, &REQUIRED), Err(CookieError::NotJson));
    assert_eq!(
        cookie_context(parse_json("[{\"name\":\"X-APPLE-WEBAUTH-TOKEN\",\"value\":\"t\"}]"), &REQUIRED),
        Ok("X-APPLE-WEBAUTH-TOKEN=t".to_string())
    );
}

#[test]
fn required_context_uses_the_three_names() {
    let text = "[{\"name\":\"X-APPLE-DS-WEB-SESSION-TOKEN\",\"value\":\"s\"},\
                {\"name\":\"X-APPLE-WEBAUTH-TOKEN\",\"value\":\"t\"},\
                {\"name\":\"X-APPLE-WEBAUTH-USER\",\"value\":\"u\"},\
                {\"name\":\"X-APPLE-WEBAUTH-PCS\",\"value\":\"p\"}]";
    assert_eq!(
        required_context(text),
        Ok("X-APPLE-DS-WEB-SESSION-TOKEN=s; X-APPLE-WEBAUTH-TOKEN=t; X-APPLE-WEBAUTH-USER=u"
            .to_string())
    );
    assert_eq!(required_context("[{\"name\":\"a\",\"value\":\"b\"}]"), Ok(String::new()));
    assert_eq!(required_context("not json"), Err(CookieError::NotJson));
}
