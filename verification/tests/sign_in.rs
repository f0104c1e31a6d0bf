use timeular_client::decode::{decode_token, interpret_sign_in};
use timeular_client::error::ApiError;
use timeular_client::json::JsonValue;

fn obj(fields: Vec<(&str, JsonValue)>) -> JsonValue {
    JsonValue::Obj(fields.into_iter().map(|(k, v)| (k.to_string(), v)).collect())
}

fn s(x: &str) -> JsonValue {
    JsonValue::Str(x.to_string())
}

#[test]
fn well_formed_sign_in_yields_the_nonempty_token() {
    let body = obj(vec![("token", s("session-token-1"))]);
    let r = interpret_sign_in(200, Some(&body));
    let token = r.expect("sign-in should succeed");
    assert_eq!(token, "session-token-1");
    assert!(!token.is_empty());
}

#[test]
fn missing_token_field_is_a_decode_error_not_a_default() {
    let body = obj(vec![("data", s("nope"))]);
    assert_eq!(interpret_sign_in(200, Some(&body)), Err(ApiError::Decode));
    let empty = obj(vec![]);
    assert_eq!(interpret_sign_in(200, Some(&empty)), Err(ApiError::Decode));
}

#[test]
fn extra_fields_beside_the_token_are_rejected() {
    let body = obj(vec![("token", s("t")), ("expires", s("soon"))]);
    assert_eq!(interpret_sign_in(200, Some(&body)), Err(ApiError::Decode));
}

#[test]
fn token_of_wrong_type_is_a_decode_error() {
    let body = obj(vec![("token", JsonValue::Int(7))]);
    assert_eq!(interpret_sign_in(200, Some(&body)), Err(ApiError::Decode));
}

#[test]
fn unparseable_body_is_a_decode_error() {
    assert_eq!(interpret_sign_in(200, None), Err(ApiError::Decode));
}

#[test]
fn rejected_status_is_an_authentication_error() {
    let body = obj(vec![("token", s("t"))]);
    assert_eq!(
        interpret_sign_in(401, Some(&body)),
        Err(ApiError::Authentication)
    );
    assert_eq!(interpret_sign_in(500, None), Err(ApiError::Authentication));
}

#[test]
fn decode_token_reads_exactly_the_token_field() {
    let body = obj(vec![("token", s("abc"))]);
    assert_eq!(decode_token(&body), Some("abc".to_string()));
    assert_eq!(decode_token(&s("abc")), None);
}
