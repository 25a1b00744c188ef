use hme_bridge::credentials::{
    add_credential, credentials_to_json, decode_credentials, find_credential, load_credentials, parse_credentials,
    remove_credential, update_credential, Credential, STORE_KEY, STORE_NAMESPACE,
};
use hme_bridge::json::{parse_json, Json, Member};

fn registration(label: &str, token: &str, cookie: &str) -> Credential {
    Credential { label: label.to_string(), token: token.to_string(), cookie: cookie.to_string() }
}

fn three_registrations() -> Vec<Credential> {
    vec![
        registration("alice", "t-a", "[]"),
        registration("bob", "t-b", "[1]"),
        registration("carol", "t-c", "x"),
    ]
}

#[test]
fn store_layout_names_are_fixed() {
    assert_eq!(STORE_NAMESPACE, "HME_BRIDGE_CREDS");
    assert_eq!(STORE_KEY, "credentials");
}

#[test]
fn parse_credentials_reads_the_stored_array() {
    let text = "[{\"label\":\"alice\",\"token\":\"abc123\",\"cookie\":\"[{\\\"name\\\":\\\"n\\\",\\\"value\\\":\\\"v\\\"}]\"},\
                {\"cookie\":\"c2\",\"token\":\"t2\",\"label\":\"bob\"}]";
    assert_eq!(
        parse_credentials(text),
        Some(vec![
            registration("alice", "abc123", "[{\"name\":\"n\",\"value\":\"v\"}]"),
            registration("bob", "t2", "c2"),
        ])
    );
}

#[test]
fn parse_credentials_rejects_other_shapes() {
    assert_eq!(parse_credentials("not json"), None);
    assert_eq!(parse_credentials("{}"), None);
    assert_eq!(parse_credentials("[{\"label\":\"a\",\"token\":\"t\"}]"), None);
    assert_eq!(parse_credentials("[{\"label\":\"a\",\"token\":\"t\",\"cookie\":[]}]"), None);
    assert_eq!(parse_credentials("[null]"), None);
    assert_eq!(parse_credentials("[]"), Some(vec![]));
}

#[test]
fn decode_credentials_reads_a_document() {
    let doc = parse_json("[{\"label\":\"l\",\"token\":\"t\",\"cookie\":\"c\"}]").unwrap();
    assert_eq!(decode_credentials(&doc), Some(vec![registration("l", "t", "c")]));
    assert_eq!(decode_credentials(&parse_json("3").unwrap()), None);
}

#[test]
fn load_credentials_is_empty_where_nothing_is_stored() {
    assert_eq!(load_credentials(None), Some(vec![]));
    assert_eq!(load_credentials(Some("[]")), Some(vec![]));
    assert_eq!(
        load_credentials(Some("[{\"label\":\"l\",\"token\":\"t\",\"cookie\":\"c\"}]")),
        Some(vec![registration("l", "t", "c")])
    );
    assert_eq!(load_credentials(Some("oops")), None);
}

#[test]
fn find_credential_matches_the_whole_token() {
    let all = three_registrations();
    assert_eq!(find_credential(&all, "t-a"), Some(0));
    assert_eq!(find_credential(&all, "t-c"), Some(2));
    assert_eq!(find_credential(&all, "t-"), None);
    assert_eq!(find_credential(&all, "t-cc"), None);
    assert_eq!(find_credential(&all, "T-A"), None);
    assert_eq!(find_credential(&vec![], "t-a"), None);
}

#[test]
fn find_credential_takes_the_first_of_equal_tokens() {
    let all = vec![registration("one", "same", "1"), registration("two", "same", "2")];
    assert_eq!(find_credential(&all, "same"), Some(0));
}

#[test]
fn add_credential_appends() {
    let mut all = three_registrations();
    add_credential(&mut all, "dave".to_string(), "t-d".to_string(), "[]".to_string());
    assert_eq!(all.len(), 4);
    assert_eq!(all[3], registration("dave", "t-d", "[]"));
    assert_eq!(all[..3], three_registrations()[..]);
}

#[test]
fn update_credential_changes_label_and_cookie_only() {
    let mut all = three_registrations();
    let at = update_credential(&mut all, "t-b", "robert".to_string(), "[2]".to_string());
    assert_eq!(at, Some(1));
    assert_eq!(
        all,
        vec![
            registration("alice", "t-a", "[]"),
            registration("robert", "t-b", "[2]"),
            registration("carol", "t-c", "x"),
        ]
    );
}

#[test]
fn update_credential_leaves_an_unknown_token_alone() {
    let mut all = three_registrations();
    assert_eq!(update_credential(&mut all, "nope", "l".to_string(), "c".to_string()), None);
    assert_eq!(all, three_registrations());
}

#[test]
fn remove_credential_drops_every_match() {
    let mut all = vec![
        registration("a", "x", "1"),
        registration("b", "y", "2"),
        registration("c", "x", "3"),
        registration("d", "z", "4"),
        registration("e", "x", "5"),
    ];
    assert!(remove_credential(&mut all, "x"));
    assert_eq!(all, vec![registration("b", "y", "2"), registration("d", "z", "4")]);
}

#[test]
fn remove_credential_reports_an_unknown_token() {
    let mut all = three_registrations();
    assert!(!remove_credential(&mut all, "nope"));
    assert_eq!(all, three_registrations());
    let mut none: Vec<Credential> = vec![];
    assert!(!remove_credential(&mut none, "t-a"));
    assert!(none.is_empty());
}

#[test]
fn credentials_to_json_writes_the_stored_layout() {
    let all = vec![registration("alice", "t-a", "[]"), registration("bob", "t-b", "c")];
    let text = |s: &str| Json::String(s.to_string());
    let item = |label: &str, token: &str, cookie: &str| {
        Json::Object(vec![
            Member { key: "label".to_string(), value: text(label) },
            Member { key: "token".to_string(), value: text(token) },
            Member { key: "cookie".to_string(), value: text(cookie) },
        ])
    };
    assert_eq!(
        credentials_to_json(&all),
        Json::Array(vec![item("alice", "t-a", "[]"), item("bob", "t-b", "c")])
    );
    assert_eq!(credentials_to_json(&vec![]), Json::Array(vec![]));
}

#[test]
fn stored_layout_reads_back_the_same() {
    let all = three_registrations();
    assert_eq!(decode_credentials(&credentials_to_json(&all)), Some(three_registrations()));
}
