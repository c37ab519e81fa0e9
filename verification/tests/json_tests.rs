use erp_ai::json::{as_str, error_body, Json};

fn obj(members: Vec<(&str, Json)>) -> Json {
    Json::Object(members.into_iter().map(|(k, v)| (k.to_string(), v)).collect())
}

#[test]
fn field_finds_first_member_with_key() {
    let v = obj(vec![("a", Json::text("1")), ("b", Json::text("2")), ("a", Json::text("3"))]);
    assert_eq!(as_str(v.field("a")), Some("1".to_string()));
    assert_eq!(as_str(v.field("b")), Some("2".to_string()));
    assert!(v.field("c").is_none());
    assert!(Json::Null.field("a").is_none());
}

#[test]
fn element_by_position() {
    let v = Json::Array(vec![Json::text("x"), Json::Bool(true)]);
    assert_eq!(as_str(v.element(0)), Some("x".to_string()));
    assert_eq!(v.element(1), Some(&Json::Bool(true)));
    assert!(v.element(2).is_none());
    assert!(Json::Null.element(0).is_none());
}

#[test]
fn as_str_only_for_strings() {
    assert_eq!(as_str(Some(&Json::Number("3".into()))), None);
    assert_eq!(as_str(None), None);
}

#[test]
fn error_body_has_error_and_message() {
    let b = error_body("forbidden", "no");
    assert_eq!(as_str(b.field("error")), Some("forbidden".to_string()));
    assert_eq!(as_str(b.field("message")), Some("no".to_string()));
}

#[test]
fn error_body_has_exactly_two_members() {
    assert_eq!(
        error_body("unauthorized", "Authentication required"),
        Json::Object(vec![
            ("error".to_string(), Json::text("unauthorized")),
            ("message".to_string(), Json::text("Authentication required")),
        ])
    );
}
