use timeular_client::error::ApiError;
use timeular_client::json::JsonValue;
use timeular_client::request::Method;
use timeular_client::session::{advance, pending_request, Event, Phase};

fn obj(fields: Vec<(&str, JsonValue)>) -> JsonValue {
    JsonValue::Obj(fields.into_iter().map(|(k, v)| (k.to_string(), v)).collect())
}

fn s(x: &str) -> JsonValue {
    JsonValue::Str(x.to_string())
}

fn response(status: u16, body: JsonValue) -> Event {
    Event::Response {
        status,
        body: Some(body),
    }
}

fn me_body() -> JsonValue {
    obj(vec![(
        "data",
        obj(vec![
            ("userId", s("u1")),
            ("name", s("Alex")),
            ("email", s("alex@example.com")),
            ("defaultSpaceId", s("s1")),
        ]),
    )])
}

fn spaces_body() -> JsonValue {
    obj(vec![(
        "data",
        JsonValue::Arr(vec![obj(vec![
            ("id", s("s1")),
            ("name", s("Home")),
            ("default", JsonValue::Bool(true)),
            ("members", JsonValue::Arr(vec![])),
            ("retiredMembers", JsonValue::Arr(vec![])),
        ])]),
    )])
}

#[test]
fn the_run_proceeds_in_strict_order_to_completion() {
    let p = Phase::NeedCredentials;
    assert!(pending_request(&p).is_none());

    let p = advance(
        p,
        Event::CredentialLines {
            line1: "key:abc123".to_string(),
            line2: "secret:xyz789".to_string(),
        },
    );
    let sign_in = pending_request(&p).expect("sign-in is pending");
    assert_eq!(sign_in.method, Method::Post);
    assert_eq!(sign_in.url, "https://api.timeular.com/api/v3/developer/sign-in");
    assert_eq!(sign_in.authorization, None);
    assert_eq!(
        sign_in.body,
        Some("{\"apiKey\":\"abc123\",\"apiSecret\":\"xyz789\"}".to_string())
    );

    let p = advance(p, response(200, obj(vec![("token", s("tok"))])));
    let fetch_me = pending_request(&p).expect("profile fetch is pending");
    assert_eq!(fetch_me.method, Method::Get);
    assert_eq!(fetch_me.url, "https://api.timeular.com/api/v3/me");
    assert_eq!(fetch_me.authorization, Some("Bearer tok".to_string()));

    let p = advance(p, response(200, me_body()));
    let fetch_spaces = pending_request(&p).expect("spaces fetch is pending");
    assert_eq!(fetch_spaces.url, "https://api.timeular.com/api/v3/space");
    assert_eq!(fetch_spaces.authorization, Some("Bearer tok".to_string()));

    let p = advance(p, response(200, spaces_body()));
    match &p {
        Phase::Complete { me, spaces } => {
            assert_eq!(me.user_id, "u1");
            assert_eq!(spaces.len(), 1);
            assert_eq!(spaces[0].id, "s1");
        }
        other => panic!("expected completion, got {:?}", other),
    }
    assert!(pending_request(&p).is_none());
}

#[test]
fn rejected_sign_in_halts_before_any_authorized_fetch() {
    let p = Phase::NeedCredentials;
    let p = advance(
        p,
        Event::CredentialLines {
            line1: "key:k".to_string(),
            line2: "secret:s".to_string(),
        },
    );
    let mut requests_issued: usize = 0;
    if pending_request(&p).is_some() {
        requests_issued += 1;
    }

    let p = advance(p, Event::Response { status: 401, body: None });
    match &p {
        Phase::Failed { error } => assert_eq!(*error, ApiError::Authentication),
        other => panic!("expected failure, got {:?}", other),
    }
    assert!(pending_request(&p).is_none());

    let p = advance(p, response(200, me_body()));
    assert!(matches!(p, Phase::Failed { .. }));
    assert!(pending_request(&p).is_none());
    assert_eq!(requests_issued, 1);
}

#[test]
fn transport_failure_is_a_network_error() {
    let p = Phase::NeedToken {
        api_key: "k".to_string(),
        api_secret: "s".to_string(),
    };
    let p = advance(p, Event::Transport);
    assert!(matches!(
        p,
        Phase::Failed {
            error: ApiError::Network
        }
    ));
}

#[test]
fn unreadable_credential_file_fails_the_run() {
    let p = advance(Phase::NeedCredentials, Event::FileUnreadable);
    assert!(matches!(
        p,
        Phase::Failed {
            error: ApiError::FileAccess
        }
    ));
}

#[test]
fn short_credential_lines_fail_the_run() {
    let p = advance(
        Phase::NeedCredentials,
        Event::CredentialLines {
            line1: "ke".to_string(),
            line2: "secret: s".to_string(),
        },
    );
    assert!(matches!(
        p,
        Phase::Failed {
            error: ApiError::FileAccess
        }
    ));
}

#[test]
fn malformed_sign_in_body_fails_with_decode() {
    let p = Phase::NeedToken {
        api_key: "k".to_string(),
        api_secret: "s".to_string(),
    };
    let p = advance(p, response(200, obj(vec![])));
    assert!(matches!(
        p,
        Phase::Failed {
            error: ApiError::Decode
        }
    ));
}
