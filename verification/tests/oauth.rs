use media_endpoint::oauth::{read_status, AccessToken, VerificationError, VerificationService};

fn token(scope: &str) -> AccessToken {
    AccessToken::new(
        "https://alice.example/".to_string(),
        "https://client.example/".to_string(),
        scope.to_string(),
    )
}

fn reason(r: Result<(), VerificationError>) -> Option<String> {
    match r {
        Err(VerificationError::InternalError(reason)) => Some(reason),
        _ => None,
    }
}

#[test]
fn access_token_hands_out_its_fields() {
    let t = token("create media");
    assert_eq!(t.me(), "https://alice.example/");
    assert_eq!(t.client_id(), "https://client.example/");
}

#[test]
fn scopes_are_the_words_of_the_scope_text() {
    assert_eq!(token("create update media").scopes(), vec!["create", "update", "media"]);
    assert_eq!(token("media").scopes(), vec!["media"]);
    assert_eq!(token("").scopes(), Vec::<String>::new());
    assert_eq!(token("   ").scopes(), Vec::<String>::new());
}

#[test]
fn scopes_are_split_at_any_ascii_whitespace() {
    assert_eq!(
        token("  a\tb\nc\x0Cd\re  f ").scopes(),
        vec!["a", "b", "c", "d", "e", "f"]
    );
    assert_eq!(token("a\u{a0}b \u{2003}c").scopes(), vec!["a\u{a0}b", "\u{2003}c"]);
}

#[test]
fn scopes_agree_with_the_standard_library() {
    for text in ["", " ", "a", " a", "a ", "a b", "a  b", "\ta\n\nb\r\nc", "media\x0Bx", "x\x0Cy"] {
        let expected: Vec<String> = text.split_ascii_whitespace().map(String::from).collect();
        assert_eq!(token(text).scopes(), expected, "{:?}", text);
    }
}

#[test]
fn has_scope_looks_for_a_whole_word() {
    let t = token("create media");
    assert!(t.has_scope("media"));
    assert!(t.has_scope("create"));
    assert!(!t.has_scope("med"));
    assert!(!t.has_scope("create media"));
    assert!(!t.has_scope(""));
    assert!(!token("").has_scope("media"));
    assert!(!token("multimedia").has_scope("media"));
}

#[test]
fn verification_error_in_words() {
    assert_eq!(VerificationError::Unauthenticated.message(), "Unauthenticated");
    assert_eq!(VerificationError::InternalError("x".to_string()).message(), "AuthServer Error");
}

#[test]
fn read_status_lets_success_through() {
    assert!(read_status(200, Some("OK")).is_ok());
    assert!(read_status(204, None).is_ok());
    assert!(read_status(299, None).is_ok());
}

#[test]
fn read_status_takes_401_for_unauthenticated() {
    assert!(matches!(
        read_status(401, Some("Unauthorized")),
        Err(VerificationError::Unauthenticated)
    ));
    assert!(matches!(read_status(401, None), Err(VerificationError::Unauthenticated)));
}

#[test]
fn read_status_reports_anything_else_by_its_reason() {
    assert_eq!(
        reason(read_status(500, Some("Internal Server Error"))).as_deref(),
        Some("Internal Server Error")
    );
    assert_eq!(
        reason(read_status(300, Some("Multiple Choices"))).as_deref(),
        Some("Multiple Choices")
    );
    assert_eq!(reason(read_status(199, None)).as_deref(), Some("Unknown Error"));
    assert_eq!(reason(read_status(403, None)).as_deref(), Some("Unknown Error"));
}

#[test]
fn service_asks_its_endpoint_with_the_credential() {
    let service = VerificationService::new("https://tokens.example/token".to_string());
    assert_eq!(service.token_endpoint(), "https://tokens.example/token");
    let request = service.request("Bearer abc");
    assert_eq!(request.url, "https://tokens.example/token");
    assert_eq!(request.authorization, "Bearer abc");
}

#[test]
fn validate_reads_the_status_code() {
    let service = VerificationService::new("https://tokens.example/token".to_string());
    assert!(service.validate(200).is_ok());
    assert!(service.validate(201).is_ok());
    assert!(matches!(service.validate(401), Err(VerificationError::Unauthenticated)));
}

#[test]
fn validate_names_the_failure_by_its_reason_phrase() {
    let service = VerificationService::new("https://tokens.example/token".to_string());
    assert_eq!(reason(service.validate(500)).as_deref(), Some("Internal Server Error"));
    assert_eq!(reason(service.validate(503)).as_deref(), Some("Service Unavailable"));
    assert_eq!(reason(service.validate(403)).as_deref(), Some("Forbidden"));
    assert_eq!(reason(service.validate(302)).as_deref(), Some("Found"));
    assert_eq!(reason(service.validate(100)).as_deref(), Some("Continue"));
}

#[test]
fn validate_knows_no_reason_for_an_unlisted_code() {
    let service = VerificationService::new("https://tokens.example/token".to_string());
    assert_eq!(reason(service.validate(599)).as_deref(), Some("Unknown Error"));
    assert_eq!(reason(service.validate(0)).as_deref(), Some("Unknown Error"));
    assert_eq!(reason(service.validate(1000)).as_deref(), Some("Unknown Error"));
    assert_eq!(reason(service.validate(u16::MAX)).as_deref(), Some("Unknown Error"));
}
