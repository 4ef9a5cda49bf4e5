use media_endpoint::config::SiteConfig;
use media_endpoint::micropub::{
    authorize, bearer_credential, created, error_object, handle_upload, plan_upload, public_url,
    refusal,
    AuthError, MediaScope, MicropubError, PartHead, UploadAction, UploadEvent, UploadState,
};
use media_endpoint::classification::Category;
use media_endpoint::oauth::{AccessToken, VerificationError};
use media_endpoint::response::{Body, Entry, Response};

fn site() -> SiteConfig {
    SiteConfig::new(
        "127.0.0.1:8180".to_string(),
        "https://media.example".to_string(),
        "bucket".to_string(),
        "https://auth.example/authorize".to_string(),
        "https://auth.example/introspect".to_string(),
        "client".to_string(),
        "s3cr3t".to_string(),
        "alice".to_string(),
        1000,
        0,
    )
}

fn claims(me: &str, scope: &str) -> AccessToken {
    AccessToken::new(me.to_string(), "https://client.example/".to_string(), scope.to_string())
}

fn pairs(list: &[Entry]) -> Vec<(&str, &str)> {
    list.iter().map(|e| (e.name.as_str(), e.value.as_str())).collect()
}

fn text(body: &Body) -> &str {
    match body {
        Body::Text(t) => t,
        _ => panic!("the body is no text"),
    }
}

fn response(action: UploadAction) -> Response {
    match action {
        UploadAction::Respond(r) => r,
        _ => panic!("the action is no response"),
    }
}

fn let_through() -> UploadState {
    let (state, action) = handle_upload(
        &site(),
        UploadState::Start,
        UploadEvent::Request { authorization: Some("Bearer token".to_string()) },
    );
    assert!(matches!(action, UploadAction::Verify { .. }));
    let (state, action) =
        handle_upload(&site(), state, UploadEvent::Verified(Ok(claims("alice", "create media"))));
    assert!(matches!(action, UploadAction::ReadPart));
    state
}

fn jpeg_part() -> UploadEvent {
    UploadEvent::Part(Some(PartHead {
        content_type: "image/jpeg".to_string(),
        filename: Some("photo.jpg".to_string()),
    }))
}

#[test]
fn error_without_description() {
    let e = MicropubError::new("unauthorized");
    assert_eq!(e.error(), "unauthorized");
    assert_eq!(e.error_description(), None);
    assert_eq!(e.to_json(), "{\"error\":\"unauthorized\"}");
}

#[test]
fn error_with_description() {
    let e = MicropubError::with_description("invalid_request", "no file");
    assert_eq!(e.error(), "invalid_request");
    assert_eq!(e.error_description(), Some("no file"));
    assert_eq!(e.to_json(), "{\"error\":\"invalid_request\",\"error_description\":\"no file\"}");
}

#[test]
fn error_json_escapes_its_texts() {
    let e = MicropubError::with_description("a\"b", "line\nbreak \\ tab\t \u{1} \u{e9}");
    assert_eq!(
        e.to_json(),
        "{\"error\":\"a\\\"b\",\"error_description\":\"line\\nbreak \\\\ tab\\t \\u0001 \u{e9}\"}"
    );
}

#[test]
fn error_json_is_read_back_by_a_json_reader() {
    let e = MicropubError::with_description("x\"y\\z", "\u{8}\u{c}\r\n\u{1f}/\u{7f}\u{1F600}");
    let value: serde_json::Value = serde_json::from_str(&e.to_json()).unwrap();
    assert_eq!(value["error"].as_str(), Some("x\"y\\z"));
    assert_eq!(value["error_description"].as_str(), Some("\u{8}\u{c}\r\n\u{1f}/\u{7f}\u{1F600}"));
    assert_eq!(value.as_object().unwrap().len(), 2);
    let e = MicropubError::new("unauthorized");
    let value: serde_json::Value = serde_json::from_str(&e.to_json()).unwrap();
    assert_eq!(value.as_object().unwrap().len(), 1);
}

#[test]
fn error_object_takes_its_values_as_they_are() {
    assert_eq!(error_object("\"a\"", None), "{\"error\":\"a\"}");
    assert_eq!(
        error_object("\"a\"", Some("\"b\"")),
        "{\"error\":\"a\",\"error_description\":\"b\"}"
    );
    assert_eq!(error_object("", Some("")), "{\"error\":,\"error_description\":}");
}

#[test]
fn media_scope_is_media() {
    assert_eq!(MediaScope::scope(), "media");
}

#[test]
fn bearer_credential_follows_the_word_bearer() {
    assert_eq!(bearer_credential(Some("Bearer abc.def")), Some("abc.def"));
    assert_eq!(bearer_credential(Some("Bearer ")), Some(""));
    assert_eq!(bearer_credential(Some("Bearer  two")), Some(" two"));
    assert_eq!(bearer_credential(Some("Bearer \u{e9}\u{1F600}")), Some("\u{e9}\u{1F600}"));
}

#[test]
fn bearer_credential_is_absent_otherwise() {
    assert_eq!(bearer_credential(None), None);
    assert_eq!(bearer_credential(Some("")), None);
    assert_eq!(bearer_credential(Some("Bearer")), None);
    assert_eq!(bearer_credential(Some("bearer abc")), None);
    assert_eq!(bearer_credential(Some("Basic dXNlcjpwYXNz")), None);
    assert_eq!(bearer_credential(Some(" Bearer abc")), None);
    assert_eq!(bearer_credential(Some("\u{e9}\u{e9}\u{e9}\u{e9}\u{e9}\u{e9}\u{e9}\u{e9}")), None);
}

#[test]
fn authorize_wants_the_scope() {
    assert!(authorize(&claims("alice", "create media"), "media", Some("alice")).is_ok());
    assert!(matches!(
        authorize(&claims("alice", "create"), "media", Some("alice")),
        Err(AuthError::InsufficientScope)
    ));
    assert!(matches!(
        authorize(&claims("alice", ""), "media", None),
        Err(AuthError::InsufficientScope)
    ));
}

#[test]
fn authorize_wants_the_allowed_principal() {
    assert!(matches!(
        authorize(&claims("mallory", "media"), "media", Some("alice")),
        Err(AuthError::Unauthenticated)
    ));
    assert!(matches!(
        authorize(&claims("", "media"), "media", Some("alice")),
        Err(AuthError::Unauthenticated)
    ));
    assert!(authorize(&claims("mallory", "media"), "media", None).is_ok());
}

#[test]
fn authorize_looks_at_the_scope_first() {
    assert!(matches!(
        authorize(&claims("mallory", "create"), "media", Some("alice")),
        Err(AuthError::InsufficientScope)
    ));
}

#[test]
fn refusal_is_401_with_json() {
    let r = refusal(&AuthError::Unauthenticated);
    assert_eq!(r.status, 401);
    assert_eq!(pairs(&r.headers), vec![("content-type", "application/json")]);
    assert_eq!(text(&r.body), "{\"error\":\"unauthorized\"}");
    let r = refusal(&AuthError::InsufficientScope);
    assert_eq!(r.status, 401);
    assert_eq!(text(&r.body), "{\"error\":\"insufficient_scope\"}");
    let r = refusal(&AuthError::VerifierUnavailable("Bad Gateway".to_string()));
    assert_eq!(r.status, 401);
    assert_eq!(text(&r.body), "{\"error\":\"unauthorized\",\"error_description\":\"Bad Gateway\"}");
}

#[test]
fn created_points_at_the_url() {
    let r = created("https://media.example/media/file/ID/a.pdf");
    assert_eq!(r.status, 201);
    assert_eq!(pairs(&r.headers), vec![("location", "https://media.example/media/file/ID/a.pdf")]);
    assert!(matches!(r.body, Body::Empty));
}

#[test]
fn public_url_of_a_photo_names_the_default_size() {
    assert_eq!(
        public_url(&site(), Category::Photo, "ID-1234567.jpg"),
        "https://media.example/media/photo/1000x0/ID-1234567.jpg"
    );
}

#[test]
fn public_url_of_anything_else_names_the_category() {
    assert_eq!(
        public_url(&site(), Category::Audio, "ID-1234567.mp3"),
        "https://media.example/media/audio/ID-1234567.mp3"
    );
    assert_eq!(
        public_url(&site(), Category::Video, "ID-1234567"),
        "https://media.example/media/video/ID-1234567"
    );
    assert_eq!(
        public_url(&site(), Category::File, "ID-1234567/a.pdf"),
        "https://media.example/media/file/ID-1234567/a.pdf"
    );
}

#[test]
fn plan_upload_of_a_photo() {
    let head = PartHead {
        content_type: "image/jpeg".to_string(),
        filename: Some("photo.jpg".to_string()),
    };
    let plan = plan_upload(&site(), &claims("alice", "media"), head, "H62VHAA-abcdefg");
    assert_eq!(plan.bucket, "bucket");
    assert_eq!(plan.key, "photo/H62VHAA-abcdefg.jpg");
    assert_eq!(plan.url, "https://media.example/media/photo/1000x0/H62VHAA-abcdefg.jpg");
    assert_eq!(plan.content_type, "image/jpeg");
    assert_eq!(
        pairs(&plan.metadata),
        vec![
            ("client-id", "https://client.example/"),
            ("author", "alice"),
            ("filename", "photo.jpg"),
        ]
    );
}

#[test]
fn plan_upload_of_a_file_without_name() {
    let head = PartHead { content_type: "application/zip".to_string(), filename: None };
    let plan = plan_upload(&site(), &claims("alice", "media"), head, "H62VHAA-abcdefg");
    assert_eq!(plan.key, "file/H62VHAA-abcdefg");
    assert_eq!(plan.url, "https://media.example/media/file/H62VHAA-abcdefg");
    assert_eq!(
        pairs(&plan.metadata),
        vec![("client-id", "https://client.example/"), ("author", "alice")]
    );
}

#[test]
fn plan_upload_of_a_named_file_keeps_the_name() {
    let head = PartHead {
        content_type: "application/pdf".to_string(),
        filename: Some("a.pdf".to_string()),
    };
    let plan = plan_upload(&site(), &claims("alice", "media"), head, "ID-0000000");
    assert_eq!(plan.key, "file/ID-0000000/a.pdf");
    assert_eq!(plan.url, "https://media.example/media/file/ID-0000000/a.pdf");
}

#[test]
fn upload_of_a_photo_is_created_under_the_default_size() {
    let state = let_through();
    let (state, action) = handle_upload(&site(), state, jpeg_part());
    assert!(matches!(action, UploadAction::ReadBody));
    let (state, action) = handle_upload(&site(), state, UploadEvent::Body(Ok(vec![1, 2, 3])));
    let put = match action {
        UploadAction::Store(put) => put,
        _ => panic!("the action is no write"),
    };
    assert_eq!(put.bucket, "bucket");
    assert_eq!(put.body, vec![1, 2, 3]);
    assert_eq!(put.content_type, "image/jpeg");
    assert_eq!(
        pairs(&put.metadata),
        vec![
            ("client-id", "https://client.example/"),
            ("author", "alice"),
            ("filename", "photo.jpg"),
        ]
    );
    let name = put.key.strip_prefix("photo/").expect("a photo's key");
    let id = name.strip_suffix(".jpg").expect("the extension");
    let (time, random) = id.rsplit_once('-').expect("an identifier");
    assert!(!time.is_empty() && time.chars().all(|c| matches!(c, 'A'..='Z' | '2'..='7')));
    assert!(random.len() == 7 && random.chars().all(|c| c.is_ascii_alphanumeric()));
    let (state, action) = handle_upload(&site(), state, UploadEvent::Stored(Ok(())));
    assert!(matches!(state, UploadState::Finished));
    let r = response(action);
    assert_eq!(r.status, 201);
    assert_eq!(
        pairs(&r.headers),
        vec![("location", format!("https://media.example/media/photo/1000x0/{}", name).as_str())]
    );
    assert!(matches!(r.body, Body::Empty));
}

#[test]
fn upload_without_authorization_is_unauthorized() {
    let (state, action) =
        handle_upload(&site(), UploadState::Start, UploadEvent::Request { authorization: None });
    assert!(matches!(state, UploadState::Finished));
    let r = response(action);
    assert_eq!(r.status, 401);
    assert_eq!(text(&r.body), "{\"error\":\"unauthorized\"}");
    assert_eq!(pairs(&r.headers), vec![("content-type", "application/json")]);
}

#[test]
fn upload_with_another_scheme_is_unauthorized() {
    let (state, action) = handle_upload(
        &site(),
        UploadState::Start,
        UploadEvent::Request { authorization: Some("Basic dXNlcjpwYXNz".to_string()) },
    );
    assert!(matches!(state, UploadState::Finished));
    assert_eq!(response(action).status, 401);
}

#[test]
fn upload_hands_the_credential_to_the_verifier() {
    let (state, action) = handle_upload(
        &site(),
        UploadState::Start,
        UploadEvent::Request { authorization: Some("Bearer abc".to_string()) },
    );
    assert!(matches!(state, UploadState::Verifying));
    match action {
        UploadAction::Verify { credential } => assert_eq!(credential, "abc"),
        _ => panic!("the action is no verification"),
    }
}

#[test]
fn upload_with_a_refused_credential_is_unauthorized() {
    let (state, action) = handle_upload(
        &site(),
        UploadState::Verifying,
        UploadEvent::Verified(Err(VerificationError::Unauthenticated)),
    );
    assert!(matches!(state, UploadState::Finished));
    let r = response(action);
    assert_eq!(r.status, 401);
    assert_eq!(text(&r.body), "{\"error\":\"unauthorized\"}");
}

#[test]
fn upload_with_a_failed_verifier_says_why() {
    let (state, action) = handle_upload(
        &site(),
        UploadState::Verifying,
        UploadEvent::Verified(Err(VerificationError::InternalError("Bad Gateway".to_string()))),
    );
    assert!(matches!(state, UploadState::Finished));
    let r = response(action);
    assert_eq!(r.status, 401);
    assert_eq!(text(&r.body), "{\"error\":\"unauthorized\",\"error_description\":\"Bad Gateway\"}");
}

#[test]
fn upload_without_the_scope_is_refused() {
    let (state, action) = handle_upload(
        &site(),
        UploadState::Verifying,
        UploadEvent::Verified(Ok(claims("alice", "create update"))),
    );
    assert!(matches!(state, UploadState::Finished));
    let r = response(action);
    assert_eq!(r.status, 401);
    assert_eq!(text(&r.body), "{\"error\":\"insufficient_scope\"}");
}

#[test]
fn upload_of_another_principal_is_refused() {
    let (state, action) = handle_upload(
        &site(),
        UploadState::Verifying,
        UploadEvent::Verified(Ok(claims("mallory", "media"))),
    );
    assert!(matches!(state, UploadState::Finished));
    let r = response(action);
    assert_eq!(r.status, 401);
    assert_eq!(text(&r.body), "{\"error\":\"unauthorized\"}");
}

#[test]
fn upload_without_a_part_is_a_bad_request() {
    let (state, action) = handle_upload(&site(), let_through(), UploadEvent::Part(None));
    assert!(matches!(state, UploadState::Finished));
    let r = response(action);
    assert_eq!(r.status, 400);
    assert!(r.headers.is_empty());
    assert!(matches!(r.body, Body::Empty));
}

#[test]
fn upload_whose_body_cannot_be_read_fails() {
    let (state, _) = handle_upload(&site(), let_through(), jpeg_part());
    let (state, action) =
        handle_upload(&site(), state, UploadEvent::Body(Err("connection reset".to_string())));
    assert!(matches!(state, UploadState::Finished));
    let r = response(action);
    assert_eq!(r.status, 500);
    assert_eq!(text(&r.body), "connection reset");
}

#[test]
fn upload_that_cannot_be_stored_fails() {
    let (state, _) = handle_upload(&site(), let_through(), jpeg_part());
    let (state, action) = handle_upload(&site(), state, UploadEvent::Body(Ok(vec![0; 16])));
    assert!(matches!(action, UploadAction::Store(_)));
    let (state, action) =
        handle_upload(&site(), state, UploadEvent::Stored(Err("access denied".to_string())));
    assert!(matches!(state, UploadState::Finished));
    let r = response(action);
    assert_eq!(r.status, 500);
    assert_eq!(text(&r.body), "access denied");
}

#[test]
fn upload_event_out_of_turn_ends_the_upload() {
    let (state, action) =
        handle_upload(&site(), UploadState::Start, UploadEvent::Body(Ok(vec![1])));
    assert!(matches!(state, UploadState::Finished));
    let r = response(action);
    assert_eq!(r.status, 500);
    assert_eq!(text(&r.body), "unexpected event");
    let (state, action) = handle_upload(&site(), UploadState::Start, jpeg_part());
    assert!(matches!(state, UploadState::Finished));
    assert_eq!(response(action).status, 500);
    let (state, action) = handle_upload(
        &site(),
        UploadState::Finished,
        UploadEvent::Request { authorization: Some("Bearer abc".to_string()) },
    );
    assert!(matches!(state, UploadState::Finished));
    assert_eq!(response(action).status, 500);
    let (_, action) = handle_upload(&site(), let_through(), UploadEvent::Stored(Ok(())));
    assert_eq!(response(action).status, 500);
}

#[test]
fn upload_writes_nothing_before_the_caller_is_let_through() {
    let events = [
        UploadEvent::Request { authorization: Some("Bearer abc".to_string()) },
        UploadEvent::Verified(Ok(claims("mallory", "media"))),
        jpeg_part(),
        UploadEvent::Body(Ok(vec![1, 2, 3])),
        UploadEvent::Stored(Ok(())),
    ];
    let mut state = UploadState::Start;
    for event in events {
        let (next, action) = handle_upload(&site(), state, event);
        assert!(!matches!(action, UploadAction::Store(_)));
        state = next;
    }
    assert!(matches!(state, UploadState::Finished));
}

#[test]
fn uploads_of_one_file_get_different_keys() {
    let mut keys = std::collections::HashSet::new();
    for _ in 0..100 {
        let (state, _) = handle_upload(&site(), let_through(), jpeg_part());
        match state {
            UploadState::AwaitingBody { plan } => assert!(keys.insert(plan.key)),
            _ => panic!("the upload does not wait for its body"),
        }
    }
}
