use timeular_client::request::{
    activities_request, auth, escape_json, me_request, sign_in_body, sign_in_request,
    spaces_request, url, Method,
};

#[test]
fn url_appends_the_path_to_the_base() {
    assert_eq!(url("/me"), "https://api.timeular.com/api/v3/me");
    assert_eq!(
        url("/developer/sign-in"),
        "https://api.timeular.com/api/v3/developer/sign-in"
    );
}

#[test]
fn auth_prefixes_the_token_with_bearer() {
    assert_eq!(auth("tok123"), "Bearer tok123");
}

#[test]
fn sign_in_request_posts_the_encoded_credentials_without_auth() {
    let r = sign_in_request("abc123", "xyz789");
    assert_eq!(r.method, Method::Post);
    assert_eq!(r.url, "https://api.timeular.com/api/v3/developer/sign-in");
    assert_eq!(r.authorization, None);
    assert_eq!(
        r.body,
        Some("{\"apiKey\":\"abc123\",\"apiSecret\":\"xyz789\"}".to_string())
    );
}

#[test]
fn every_fetch_request_carries_the_bearer_header_once() {
    let expected = Some("Bearer tok".to_string());
    let me = me_request("tok");
    assert_eq!(me.method, Method::Get);
    assert_eq!(me.url, "https://api.timeular.com/api/v3/me");
    assert_eq!(me.authorization, expected);
    assert_eq!(me.body, None);

    let spaces = spaces_request("tok");
    assert_eq!(spaces.url, "https://api.timeular.com/api/v3/space");
    assert_eq!(spaces.authorization, expected);

    let activities = activities_request("tok");
    assert_eq!(activities.url, "https://api.timeular.com/api/v3/activities");
    assert_eq!(activities.authorization, expected);
}

#[test]
fn sign_in_body_escapes_quotes_and_backslashes() {
    let body = sign_in_body("a\"b", "c\\d");
    assert_eq!(body, "{\"apiKey\":\"a\\\"b\",\"apiSecret\":\"c\\\\d\"}");
}

#[test]
fn escape_leaves_plain_text_alone_and_rewrites_controls() {
    assert_eq!(escape_json("plain text"), "plain text");
    assert_eq!(escape_json("a\nb\rc\td"), "a\\nb\\rc\\td");
    assert_eq!(escape_json("\u{1}"), "\\u0001");
    assert_eq!(escape_json("\u{1f}"), "\\u001f");
}
