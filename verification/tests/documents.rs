use poll_bridge::json::string_member;
use poll_bridge::request::ClientRequest;

fn document(text: &str) -> serde_json::Value {
    serde_json::from_str::<serde_json::Value>(text).unwrap()
}

#[test]
fn string_member_finds_a_string_under_its_key() {
    let parsed = document("{\"flag\":\"success\",\"id\":7}");
    assert_eq!(string_member(&parsed, "flag"), Some("success"));
}

#[test]
fn string_member_finds_nothing_under_a_missing_key() {
    let parsed = document("{\"flag\":\"success\"}");
    assert_eq!(string_member(&parsed, "id"), None);
    assert_eq!(string_member(&parsed, "Flag"), None);
    assert_eq!(string_member(&parsed, ""), None);
}

#[test]
fn string_member_finds_nothing_where_the_member_is_no_string() {
    let parsed = document("{\"a\":7,\"b\":null,\"c\":[\"x\"],\"d\":{\"e\":\"x\"},\"f\":true}");
    for key in ["a", "b", "c", "d", "f"] {
        assert_eq!(string_member(&parsed, key), None);
    }
}

#[test]
fn string_member_finds_nothing_in_a_document_that_is_no_object() {
    assert_eq!(string_member(&document("\"flag\""), "flag"), None);
    assert_eq!(string_member(&document("[\"flag\"]"), "flag"), None);
    assert_eq!(string_member(&document("null"), "flag"), None);
}

#[test]
fn string_member_does_not_look_into_members() {
    let parsed = document("{\"outer\":{\"flag\":\"success\"}}");
    assert_eq!(string_member(&parsed, "flag"), None);
}

#[test]
fn string_member_may_be_empty() {
    assert_eq!(string_member(&document("{\"flag\":\"\"}"), "flag"), Some(""));
    assert_eq!(string_member(&document("{\"\":\"x\"}"), ""), Some("x"));
}

#[test]
fn repeated_request_field_goes_by_the_last_one() {
    assert_eq!(
        ClientRequest::parse("{\"action\":\"a\",\"action\":\"b\",\"data\":\"d\"}"),
        Ok(ClientRequest { action: "b".to_string(), data: "d".to_string() })
    );
}

#[test]
fn deeply_nested_text_is_refused_not_followed() {
    let deep = format!("{}{}", "[".repeat(200), "]".repeat(200));
    assert!(ClientRequest::parse(&deep).is_err());
    let shallow = format!("{}{}", "[".repeat(100), "]".repeat(100));
    assert!(ClientRequest::parse(&shallow).is_err());
}
