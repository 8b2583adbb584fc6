use cdumay_http::HTTPErrorConverter;
use serde_value::Value;
use std::collections::BTreeMap;

fn listed_codes_and_messages() -> Vec<(u16, &'static str)> {
    vec![
        (300, "Multiple Choices"),
        (301, "Moved Permanently"),
        (302, "Found"),
        (303, "See Other"),
        (304, "Not Modified"),
        (305, "Use Proxy"),
        (307, "Temporary Redirect"),
        (308, "Permanent Redirect"),
        (400, "Bad Request"),
        (401, "Unauthorized"),
        (402, "Payment Required"),
        (403, "Forbidden"),
        (404, "Not Found"),
        (405, "Method Not Allowed"),
        (406, "Not Acceptable"),
        (407, "Proxy Authentication Required"),
        (408, "Request Timeout"),
        (409, "Conflict"),
        (410, "Gone"),
        (411, "Length Required"),
        (412, "Precondition Failed"),
        (413, "Payload Too Large"),
        (414, "URI Too Long"),
        (415, "Unsupported Media Type"),
        (416, "Range Not Satisfiable"),
        (417, "Expectation Failed"),
        (418, "I'm a teapot"),
        (421, "Misdirected Request"),
        (422, "Unprocessable Entity"),
        (423, "Locked"),
        (424, "Failed Dependency"),
        (426, "Upgrade Required"),
        (428, "Precondition Required"),
        (429, "Too Many Requests"),
        (431, "Request Header Fields Too Large"),
        (451, "Unavailable For Legal Reasons"),
        (500, "Internal Server Error"),
        (501, "Not Implemented"),
        (502, "Bad Gateway"),
        (503, "Service Unavailable"),
        (504, "Gateway Timeout"),
        (505, "HTTP Version Not Supported"),
        (506, "Variant Also Negotiates"),
        (507, "Insufficient Storage"),
        (508, "Loop Detected"),
        (510, "Not Extended"),
        (511, "Network Authentication Required"),
    ]
}

#[test]
fn test_every_listed_code_keeps_its_code_and_message() {
    let table = listed_codes_and_messages();
    assert_eq!(table.len(), 47);
    for (code, message) in table {
        let mut context = BTreeMap::new();
        context.insert("probe".to_string(), Value::String("x".to_string()));
        let error = HTTPErrorConverter::from_u16(code, context);
        assert_eq!(error.code(), code);
        assert_eq!(error.message(), message);
    }
}

#[test]
fn test_unlisted_codes_fall_back_to_500() {
    let unlisted: Vec<u16> = vec![
        0, 1, 100, 200, 299, 306, 309, 399, 419, 420, 425, 427, 430, 432, 450, 452, 499, 509,
        512, 600, 999, 65535,
    ];
    for code in unlisted {
        let error = HTTPErrorConverter::from_u16(code, BTreeMap::new());
        assert_eq!(error.code(), 500);
        assert_eq!(error.message(), "Internal Server Error");
    }
}

#[test]
fn test_details_equal_context_exactly() {
    let mut context = BTreeMap::new();
    context.insert("request_id".to_string(), Value::String("abc-123".to_string()));
    context.insert("retries".to_string(), Value::I64(3));
    context.insert("cached".to_string(), Value::Bool(false));
    context.insert("payload".to_string(), Value::Unit);
    let error = HTTPErrorConverter::from_u16(418, context.clone());
    assert_eq!(error.details(), context);
}

#[test]
fn test_convert_twice_yields_equal_errors() {
    let mut context = BTreeMap::new();
    context.insert("uri".to_string(), Value::String("/teapots/1".to_string()));
    let first = HTTPErrorConverter::from_u16(451, context.clone());
    let second = HTTPErrorConverter::from_u16(451, context.clone());
    assert_eq!(first, second);
    let other = HTTPErrorConverter::from_u16(452, context);
    assert_eq!(other, HTTPErrorConverter::from_u16(452, {
        let mut again = BTreeMap::new();
        again.insert("uri".to_string(), Value::String("/teapots/1".to_string()));
        again
    }));
}

#[test]
fn test_every_u16_is_accepted_and_resolved() {
    let listed: Vec<u16> = listed_codes_and_messages().into_iter().map(|p| p.0).collect();
    for code in 0..=u16::MAX {
        let error = HTTPErrorConverter::from_u16(code, BTreeMap::new());
        let expected: u16 = if listed.contains(&code) { code } else { 500 };
        assert_eq!(error.code(), expected);
        assert!(!error.message().is_empty());
        assert!(error.details().is_empty());
    }
}

#[test]
fn test_teapot_scenario() {
    let error = HTTPErrorConverter::from_u16(418, BTreeMap::new());
    assert_eq!(error.code(), 418);
    assert_eq!(error.message(), "I'm a teapot");
}

#[test]
fn test_empty_context_fallback_scenario() {
    let error = HTTPErrorConverter::from_u16(999, BTreeMap::new());
    assert_eq!(error.code(), 500);
    assert_eq!(error.message(), "Internal Server Error");
    assert!(error.details().is_empty());
}

#[test]
fn test_class_joins_side_category_and_name() {
    let redirect = HTTPErrorConverter::from_u16(300, BTreeMap::new());
    assert_eq!(redirect.class(), "Client::Redirection::MultipleChoices");
    let client = HTTPErrorConverter::from_u16(404, BTreeMap::new());
    assert_eq!(client.class(), "Client::ClientError::NotFound");
    let server = HTTPErrorConverter::from_u16(511, BTreeMap::new());
    assert_eq!(server.class(), "Server::ServerError::NetworkAuthenticationRequired");
    let fallback = HTTPErrorConverter::from_u16(999, BTreeMap::new());
    assert_eq!(fallback.class(), "Server::ServerError::InternalServerError");
}
