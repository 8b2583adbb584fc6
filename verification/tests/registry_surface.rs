use cdumay_http::Category;
use cdumay_http::lookup;
use cdumay_http::resolve;

#[test]
fn test_lookup_finds_listed_entries() {
    let kind = lookup(404).unwrap();
    assert_eq!(kind.code, 404);
    assert_eq!(kind.name, "NotFound");
    assert_eq!(kind.message, "Not Found");
    assert_eq!(kind.category, Category::ClientError);
    let kind = lookup(300).unwrap();
    assert_eq!(kind.code, 300);
    assert_eq!(kind.category, Category::Redirection);
    let kind = lookup(511).unwrap();
    assert_eq!(kind.message, "Network Authentication Required");
    assert_eq!(kind.category, Category::ServerError);
}

#[test]
fn test_lookup_rejects_gaps_in_the_bands() {
    for code in [306u16, 309, 419, 420, 425, 427, 430, 452, 509, 512] {
        assert!(lookup(code).is_none());
    }
}

#[test]
fn test_resolve_falls_back_to_internal_server_error() {
    let kind = resolve(425);
    assert_eq!(kind.code, 500);
    assert_eq!(kind.name, "InternalServerError");
    assert_eq!(kind.message, "Internal Server Error");
    assert_eq!(kind.category, Category::ServerError);
    let kind = resolve(418);
    assert_eq!(kind.code, 418);
    assert_eq!(kind.message, "I'm a teapot");
}

#[test]
fn test_category_codes_labels_and_sides() {
    assert_eq!(Category::Redirection.family_code(), 300);
    assert_eq!(Category::ClientError.family_code(), 400);
    assert_eq!(Category::ServerError.family_code(), 500);
    assert_eq!(Category::Redirection.label(), "Redirect");
    assert_eq!(Category::ClientError.label(), "Client Error");
    assert_eq!(Category::ServerError.label(), "Server Error");
    assert_eq!(Category::Redirection.name(), "Redirection");
    assert_eq!(Category::Redirection.side(), "Client");
    assert_eq!(Category::ClientError.side(), "Client");
    assert_eq!(Category::ServerError.side(), "Server");
}
