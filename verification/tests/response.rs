use media_endpoint::response::{
    push_entry, Body, Entry, Failure, Response, BAD_REQUEST, CREATED, INTERNAL_SERVER_ERROR,
    NOT_FOUND, OK, UNAUTHORIZED,
};

const FAILURES: [Failure; 8] = [
    Failure::Unauthenticated,
    Failure::InsufficientScope,
    Failure::VerifierUnavailable,
    Failure::MalformedRequest,
    Failure::NotFound,
    Failure::StorageError,
    Failure::ImageError,
    Failure::InternalError,
];

#[test]
fn status_codes() {
    assert_eq!(
        (OK, CREATED, BAD_REQUEST, UNAUTHORIZED, NOT_FOUND, INTERNAL_SERVER_ERROR),
        (200, 201, 400, 401, 404, 500)
    );
}

#[test]
fn failure_status_for_each_failure() {
    let codes: Vec<u16> = FAILURES.iter().map(|f| f.status()).collect();
    assert_eq!(codes, vec![401, 401, 401, 400, 404, 500, 500, 500]);
}

#[test]
fn only_verifier_and_store_failures_are_transient() {
    let transient: Vec<Failure> = FAILURES.iter().copied().filter(|f| f.is_transient()).collect();
    assert_eq!(transient, vec![Failure::VerifierUnavailable, Failure::StorageError]);
}

#[test]
fn bare_response_has_a_status_only() {
    let r = Response::bare(Failure::MalformedRequest);
    assert_eq!(r.status, 400);
    assert!(r.headers.is_empty());
    assert!(matches!(r.body, Body::Empty));
}

#[test]
fn plain_response_says_its_text() {
    let r = Response::plain(Failure::NotFound, "Not found");
    assert_eq!(r.status, 404);
    assert!(r.headers.is_empty());
    assert!(matches!(r.body, Body::Text(ref t) if t == "Not found"));
}

#[test]
fn push_entry_appends() {
    let mut list: Vec<Entry> = Vec::new();
    push_entry(&mut list, "etag", "\"a\"");
    push_entry(&mut list, "etag", "\"b\"");
    let pairs: Vec<(&str, &str)> =
        list.iter().map(|e| (e.name.as_str(), e.value.as_str())).collect();
    assert_eq!(pairs, vec![("etag", "\"a\""), ("etag", "\"b\"")]);
}
