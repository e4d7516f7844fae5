use balance_api::body::RequestBody;
use balance_api::handler::{Step, balance_response, extract_address};
use balance_api::HttpResponse;

fn lookup_of(step: Step) -> String {
    match step {
        Step::Lookup(a) => a,
        Step::Respond(r) => panic!("expected a lookup, got status {} body {}", r.status, r.body),
    }
}

fn response_of(step: Step) -> HttpResponse {
    match step {
        Step::Respond(r) => r,
        Step::Lookup(a) => panic!("expected a response, got a lookup of {}", a),
    }
}

#[test]
fn get_with_address_extracts_it() {
    let step = extract_address("GET", Some("address=abc"), &RequestBody::Empty);
    assert_eq!(lookup_of(step), "abc");
}

#[test]
fn post_with_address_extracts_it() {
    let body = RequestBody::Text(String::from("{\"address\":\"abc\"}"));
    let step = extract_address("POST", None, &body);
    assert_eq!(lookup_of(step), "abc");
}

#[test]
fn get_and_post_agree_on_success() {
    let get = extract_address("GET", Some("address=abc"), &RequestBody::Empty);
    let body = RequestBody::Text(String::from("{\"address\":\"abc\"}"));
    let post = extract_address("POST", None, &body);
    assert_eq!(lookup_of(get), lookup_of(post));
    let r = balance_response(Some(42));
    assert_eq!(r.status, 200);
    assert!(r.json);
    assert_eq!(r.body, "{\"lamports\":42}");
}

#[test]
fn get_without_address_is_missing() {
    let r = response_of(extract_address("GET", Some("foo=bar"), &RequestBody::Empty));
    assert_eq!(r.status, 400);
    assert!(r.json);
    assert_eq!(r.body, "{\"error\":\"Missing address\"}");
}

#[test]
fn get_without_query_is_missing() {
    let r = response_of(extract_address("GET", None, &RequestBody::Empty));
    assert_eq!(r.status, 400);
    assert_eq!(r.body, "{\"error\":\"Missing address\"}");
}

#[test]
fn post_empty_body_is_rejected() {
    let r = response_of(extract_address("POST", None, &RequestBody::Empty));
    assert_eq!(r.status, 400);
    assert!(r.json);
    assert_eq!(r.body, "{\"error\":\"Empty body\"}");
}

#[test]
fn post_non_json_body_is_rejected() {
    let body = RequestBody::Text(String::from("not json"));
    let r = response_of(extract_address("POST", None, &body));
    assert_eq!(r.status, 400);
    assert_eq!(r.body, "{\"error\":\"Invalid JSON\"}");
}

#[test]
fn post_wrong_field_is_rejected() {
    let body = RequestBody::Text(String::from("{\"wrong\":\"field\"}"));
    let r = response_of(extract_address("POST", None, &body));
    assert_eq!(r.status, 400);
    assert_eq!(r.body, "{\"error\":\"Invalid JSON\"}");
}

#[test]
fn post_non_string_address_is_rejected() {
    let body = RequestBody::Text(String::from("{\"address\":5}"));
    let r = response_of(extract_address("POST", None, &body));
    assert_eq!(r.status, 400);
    assert_eq!(r.body, "{\"error\":\"Invalid JSON\"}");
}

#[test]
fn put_delete_patch_are_not_allowed() {
    for method in ["PUT", "DELETE", "PATCH"] {
        let r = response_of(extract_address(method, Some("address=abc"), &RequestBody::Empty));
        assert_eq!(r.status, 405);
        assert!(!r.json);
        assert_eq!(r.body, "Method Not Allowed");
    }
}

#[test]
fn method_match_is_case_sensitive() {
    let r = response_of(extract_address("get", Some("address=abc"), &RequestBody::Empty));
    assert_eq!(r.status, 405);
}

#[test]
fn failed_lookup_is_a_500() {
    let r = balance_response(None);
    assert_eq!(r.status, 500);
    assert!(r.json);
    assert_eq!(r.body, "{\"error\":\"Failed to get balance\"}");
}

#[test]
fn identical_requests_get_identical_responses() {
    let first = extract_address("GET", Some("address=abc"), &RequestBody::Empty);
    let second = extract_address("GET", Some("address=abc"), &RequestBody::Empty);
    assert_eq!(lookup_of(first), lookup_of(second));
    let r1 = balance_response(Some(7));
    let r2 = balance_response(Some(7));
    assert_eq!(r1.status, r2.status);
    assert_eq!(r1.json, r2.json);
    assert_eq!(r1.body, r2.body);
}

#[test]
fn repeated_address_takes_the_first() {
    let step = extract_address("GET", Some("address=X&address=Y"), &RequestBody::Empty);
    assert_eq!(lookup_of(step), "X");
}

#[test]
fn query_values_are_percent_decoded() {
    let step = extract_address("GET", Some("address=a%20b%2Bc"), &RequestBody::Empty);
    assert_eq!(lookup_of(step), "a b+c");
}

#[test]
fn query_plus_decodes_to_space() {
    let step = extract_address("GET", Some("x=1&address=a+b"), &RequestBody::Empty);
    assert_eq!(lookup_of(step), "a b");
}

#[test]
fn query_empty_value_extracts_empty_address() {
    let step = extract_address("GET", Some("address="), &RequestBody::Empty);
    assert_eq!(lookup_of(step), "");
}

#[test]
fn post_ignores_extra_members() {
    let body = RequestBody::Text(String::from("{\"foo\":1,\"address\":\"abc\",\"bar\":[2]}"));
    let step = extract_address("POST", None, &body);
    assert_eq!(lookup_of(step), "abc");
}

#[test]
fn post_binary_body_is_decoded_as_utf8() {
    let body = RequestBody::Binary(Vec::from("{\"address\":\"xyz\"}".as_bytes()));
    let step = extract_address("POST", None, &body);
    assert_eq!(lookup_of(step), "xyz");
}

#[test]
fn post_binary_body_decodes_lossily() {
    let mut bytes = Vec::from("{\"address\":\"a".as_bytes());
    bytes.push(0xFF);
    bytes.extend_from_slice("b\"}".as_bytes());
    let step = extract_address("POST", None, &body_from(bytes));
    assert_eq!(lookup_of(step), "a\u{FFFD}b");
}

fn body_from(bytes: Vec<u8>) -> RequestBody {
    RequestBody::Binary(bytes)
}

#[test]
fn get_ignores_the_body() {
    let body = RequestBody::Text(String::from("{\"address\":\"ignored\"}"));
    let step = extract_address("GET", Some("address=abc"), &body);
    assert_eq!(lookup_of(step), "abc");
}

#[test]
fn lamports_body_renders_zero() {
    let r = balance_response(Some(0));
    assert_eq!(r.body, "{\"lamports\":0}");
}

#[test]
fn lamports_body_renders_the_largest_balance() {
    let r = balance_response(Some(u64::MAX));
    assert_eq!(r.body, "{\"lamports\":18446744073709551615}");
}

#[test]
fn error_body_escapes_quotes_backslashes_and_controls() {
    let r = balance_api::response::error_response("a\"b\\c\nd\u{1}e", 400);
    assert_eq!(r.body, "{\"error\":\"a\\\"b\\\\c\\nd\\u0001e\"}");
}

#[test]
fn error_body_uses_short_escapes_and_lowercase_hex() {
    let r = balance_api::response::error_response("\u{8}\t\u{c}\r\u{1f}", 400);
    assert_eq!(r.body, "{\"error\":\"\\b\\t\\f\\r\\u001f\"}");
}

#[test]
fn error_bodies_match_the_json_serializer() {
    let messages = [
        "Missing address",
        "Empty body",
        "Invalid JSON",
        "Failed to get balance",
        "with \"quotes\" and \\slashes\\",
        "line\nbreak\ttab\rreturn",
        "ctrl\u{0}\u{1}\u{b}\u{e}\u{1f}chars",
        "unicode \u{e9}\u{4e16} stays",
        "",
    ];
    for msg in messages {
        let r = balance_api::response::error_response(msg, 400);
        let mut members = serde_json::Map::new();
        members.insert(String::from("error"), serde_json::Value::String(String::from(msg)));
        let expected = serde_json::Value::Object(members).to_string();
        assert_eq!(r.body, expected);
    }
}

#[test]
fn plain_messages_escape_to_themselves() {
    assert_eq!(balance_api::response::escape_json_string("Missing address"), "Missing address");
}

#[test]
fn decimal_rendering_is_exact() {
    assert_eq!(balance_api::response::u64_to_decimal(1_234_567_890), "1234567890");
    assert_eq!(balance_api::response::u64_to_decimal(10), "10");
    assert_eq!(balance_api::response::u64_to_decimal(9), "9");
}
