use reqt::processor::{decode_body, failure_text, render};
use reqt::{process, Decoded, TransportOutcome};

fn success(status: u16, body: &[u8]) -> TransportOutcome {
    TransportOutcome::Success { status, headers: Vec::new(), body: body.to_vec() }
}

#[test]
fn json_body_is_pretty_printed() {
    let shown = process(success(200, b"{\"a\":1}"));
    assert_eq!(shown, "{\n  \"a\": 1\n}");
}

#[test]
fn body_that_is_no_json_is_reported() {
    let shown = process(success(200, b"not json"));
    assert!(shown.starts_with("Failed to parse JSON: "));
    assert_eq!(shown, "Failed to parse JSON: expected ident at line 1 column 2");
}

#[test]
fn transport_failure_is_passed_through() {
    let shown = process(TransportOutcome::Failure { message: "dns failure".to_string() });
    assert_eq!(shown, "Error: dns failure");
}

#[test]
fn empty_failure_message_leaves_the_prefix() {
    let shown = process(TransportOutcome::Failure { message: String::new() });
    assert_eq!(shown, "Error: ");
}

#[test]
fn empty_body_is_reported() {
    let shown = process(success(200, b""));
    assert_eq!(shown, "Failed to parse JSON: EOF while parsing a value at line 1 column 0");
}

#[test]
fn body_that_is_no_utf8_is_reported() {
    let shown = process(success(200, &[b'"', 0xff, 0xfe, b'"']));
    assert!(shown.starts_with("Failed to parse JSON: "));
    assert!(shown.len() > "Failed to parse JSON: ".len());
}

#[test]
fn truncated_document_is_reported() {
    let shown = process(success(200, b"{\"a\":"));
    assert_eq!(shown, "Failed to parse JSON: EOF while parsing a value at line 1 column 5");
}

#[test]
fn trailing_text_is_reported() {
    let shown = process(success(200, b"{} x"));
    assert_eq!(shown, "Failed to parse JSON: trailing characters at line 1 column 4");
}

#[test]
fn status_and_headers_do_not_change_the_text() {
    let plain = process(success(200, b"[1,2]"));
    let other = process(TransportOutcome::Success {
        status: 404,
        headers: vec![("content-type".to_string(), "text/plain".to_string())],
        body: b"[1,2]".to_vec(),
    });
    assert_eq!(plain, "[\n  1,\n  2\n]");
    assert_eq!(other, plain);
}

#[test]
fn keys_stay_in_their_order() {
    let shown = process(success(200, b"{\"b\":1,\"a\":{\"d\":null,\"c\":true}}"));
    assert_eq!(shown, "{\n  \"b\": 1,\n  \"a\": {\n    \"d\": null,\n    \"c\": true\n  }\n}");
}

#[test]
fn scalars_and_empty_containers() {
    assert_eq!(process(success(200, b" null ")), "null");
    assert_eq!(process(success(200, b"\"hi\"")), "\"hi\"");
    assert_eq!(process(success(200, b"-12")), "-12");
    assert_eq!(process(success(200, b"[]")), "[]");
    assert_eq!(process(success(200, b"{}")), "{}");
}

#[test]
fn pretty_text_parses_to_the_same_value() {
    let texts = [
        "null",
        "true",
        "17",
        "-3",
        "\"a \\\"quoted\\\" word\"",
        "[]",
        "{}",
        "[1,[2,[3,{\"k\":[]}]]]",
        "{\"name\":\"hug\",\"results\":[{\"url\":\"https://x/y.gif\",\"n\":10}],\"ok\":true}",
        "{\"z\":1,\"a\":2}",
    ];
    for text in texts {
        let value: serde_json::Value = serde_json::from_str(text).unwrap();
        let body = serde_json::to_vec(&value).unwrap();
        let shown = process(success(200, &body));
        let again: serde_json::Value = serde_json::from_str(&shown).unwrap();
        assert_eq!(again, value);
    }
}

#[test]
fn pretty_text_is_stable() {
    let once = process(success(200, b"{\"a\":[1,{\"b\":2}]}"));
    let twice = process(success(200, once.as_bytes()));
    assert_eq!(once, twice);
}

#[test]
fn decode_body_tells_the_cases_apart() {
    assert_eq!(decode_body(b"{\"a\":1}"), Decoded::Pretty("{\n  \"a\": 1\n}".to_string()));
    assert_eq!(
        decode_body(b"not json"),
        Decoded::Invalid("expected ident at line 1 column 2".to_string())
    );
    assert_eq!(
        decode_body(b"[1,"),
        Decoded::Invalid("EOF while parsing a value at line 1 column 3".to_string())
    );
}

#[test]
fn render_of_each_case() {
    assert_eq!(render(Decoded::Pretty("[\n  1\n]".to_string())), "[\n  1\n]");
    assert_eq!(render(Decoded::Unformattable), "Failed to format JSON");
    assert_eq!(render(Decoded::Invalid("why".to_string())), "Failed to parse JSON: why");
    assert_eq!(render(Decoded::Invalid(String::new())), "Failed to parse JSON: ");
}

#[test]
fn failure_text_puts_the_prefix_first() {
    assert_eq!(failure_text("timed out"), "Error: timed out");
    assert_eq!(failure_text("Error: nested"), "Error: Error: nested");
}
