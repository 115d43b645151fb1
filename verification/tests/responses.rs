use poll_bridge::response::ClientResponse;

fn encoded(message: &str) -> String {
    ClientResponse { message: message.to_string() }.encode()
}

/// The message that a JSON reader finds in an encoded response.
fn decoded(text: &str) -> String {
    let document = serde_json::from_str::<serde_json::Value>(text).unwrap();
    let object = document.as_object().unwrap();
    assert_eq!(object.len(), 1);
    object.get("message").unwrap().as_str().unwrap().to_string()
}

#[test]
fn response_is_an_object_with_the_message() {
    assert_eq!(encoded("done"), "{\"message\":\"done\"}");
}

#[test]
fn empty_message_is_an_empty_string() {
    assert_eq!(encoded(""), "{\"message\":\"\"}");
}

#[test]
fn quotes_and_backslashes_are_escaped() {
    assert_eq!(encoded("say \"hi\" \\ bye"), "{\"message\":\"say \\\"hi\\\" \\\\ bye\"}");
}

#[test]
fn control_characters_are_escaped() {
    assert_eq!(encoded("a\nb\tc\r\u{8}\u{c}\u{1}"), "{\"message\":\"a\\nb\\tc\\r\\b\\f\\u0001\"}");
}

#[test]
fn other_characters_go_out_as_they_are() {
    assert_eq!(encoded("caf\u{e9} \u{1f600} /"), "{\"message\":\"caf\u{e9} \u{1f600} /\"}");
}

#[test]
fn encoded_response_reads_back() {
    for message in ["", "plain", "with \"quotes\"", "line\nbreak", "{\"message\":\"nested\"}", "\u{0}\u{1f}\u{7f}"] {
        assert_eq!(decoded(&encoded(message)), message);
    }
}

#[test]
fn frame_puts_a_literal_into_the_object() {
    assert_eq!(ClientResponse::frame("\"x\""), "{\"message\":\"x\"}");
    assert_eq!(ClientResponse::frame(""), "{\"message\":}");
}
