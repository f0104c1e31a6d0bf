use timeular_client::decode::{interpret_activities, interpret_me};
use timeular_client::error::ApiError;
use timeular_client::json::JsonValue;

fn obj(fields: Vec<(&str, JsonValue)>) -> JsonValue {
    JsonValue::Obj(fields.into_iter().map(|(k, v)| (k.to_string(), v)).collect())
}

fn s(x: &str) -> JsonValue {
    JsonValue::Str(x.to_string())
}

fn activity_obj(id: &str, device_side: Option<i64>) -> JsonValue {
    let mut fields = vec![
        ("id", s(id)),
        ("name", s("work")),
        ("color", s("#a1b2c3")),
        ("integration", s("zei")),
        ("spaceId", s("s1")),
    ];
    if let Some(n) = device_side {
        fields.push(("deviceSide", JsonValue::Int(n)));
    }
    obj(fields)
}

fn envelope(active: Vec<JsonValue>, inactive: Vec<JsonValue>, archived: Vec<JsonValue>)
    -> JsonValue {
    obj(vec![
        ("activities", JsonValue::Arr(active)),
        ("inactiveActivities", JsonValue::Arr(inactive)),
        ("archivedActivities", JsonValue::Arr(archived)),
    ])
}

#[test]
fn only_the_active_activities_are_returned_in_order() {
    let body = envelope(
        vec![activity_obj("a1", None), activity_obj("a2", Some(3))],
        vec![activity_obj("i1", None)],
        vec![
            activity_obj("r1", None),
            activity_obj("r2", None),
            activity_obj("r3", None),
        ],
    );
    let acts = interpret_activities(200, Some(&body)).expect("well-formed envelope");
    assert_eq!(acts.len(), 2);
    assert_eq!(acts[0].id, "a1");
    assert_eq!(acts[1].id, "a2");
    assert!(acts.iter().all(|a| a.id != "i1" && a.id != "r1" && a.id != "r2" && a.id != "r3"));
}

#[test]
fn device_side_absent_means_no_value_present() {
    let body = envelope(vec![activity_obj("a1", None)], vec![], vec![]);
    let acts = interpret_activities(200, Some(&body)).unwrap();
    assert_eq!(acts[0].device_side, None);
}

#[test]
fn device_side_five_means_value_five_present() {
    let body = envelope(vec![activity_obj("a1", Some(5))], vec![], vec![]);
    let acts = interpret_activities(200, Some(&body)).unwrap();
    assert_eq!(acts[0].device_side, Some(5));
}

#[test]
fn inactive_and_archived_lists_are_still_validated() {
    let malformed = obj(vec![("id", s("bad"))]);
    let body = envelope(vec![activity_obj("a1", None)], vec![malformed], vec![]);
    assert_eq!(interpret_activities(200, Some(&body)), Err(ApiError::Decode));
}

#[test]
fn missing_archived_list_is_rejected() {
    let body = obj(vec![
        ("activities", JsonValue::Arr(vec![])),
        ("inactiveActivities", JsonValue::Arr(vec![])),
    ]);
    assert_eq!(interpret_activities(200, Some(&body)), Err(ApiError::Decode));
}

#[test]
fn rejected_activities_status_is_an_authorization_error() {
    let body = envelope(vec![], vec![], vec![]);
    assert_eq!(interpret_activities(403, Some(&body)), Err(ApiError::Authorization));
}

#[test]
fn profile_envelope_decodes_to_the_record() {
    let body = obj(vec![(
        "data",
        obj(vec![
            ("userId", s("u1")),
            ("name", s("Alex")),
            ("email", s("alex@example.com")),
            ("defaultSpaceId", s("s1")),
        ]),
    )]);
    let me = interpret_me(200, Some(&body)).expect("well-formed profile");
    assert_eq!(me.user_id, "u1");
    assert_eq!(me.name, "Alex");
    assert_eq!(me.email, "alex@example.com");
    assert_eq!(me.default_space_id, "s1");
}

#[test]
fn profile_with_missing_field_is_a_decode_error() {
    let body = obj(vec![(
        "data",
        obj(vec![("userId", s("u1")), ("name", s("Alex")), ("email", s("a@b"))]),
    )]);
    assert_eq!(interpret_me(200, Some(&body)), Err(ApiError::Decode));
}
