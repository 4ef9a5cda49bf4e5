//! Uploads: who may upload, where an upload is stored and under which URL
//! it is published, and what is answered.

use vstd::prelude::*;
use vstd::string::{StrSliceExecFns, StringExecFns};
use crate::classification::{
    classification_of, classify, object_key, object_key_of, object_name, object_name_of,
    top_level_type, Category, ClassificationView,
};
use crate::config::{SiteConfig, SiteConfigView};
use crate::identifier::{identifier_text, is_identifier, is_random_part, random_id};
use crate::oauth::{AccessToken, AccessTokenView, VerificationError, VerificationErrorView};
use crate::response::{
    bare, entries, plain, push_entry, Body, BodyView, Entry, Failure, Response, ResponseView,
    CREATED,
};
use crate::text::{decimal_text, push_decimal};

verus! {

/// An error as the upload endpoint reports it: a short code and, where
/// there is more to say, a description.
pub struct MicropubError {
    error: String,
    error_description: Option<String>,
}

/// A `MicropubError` as plain text.
pub struct MicropubErrorView {
    pub error: Seq<char>,
    pub error_description: Option<Seq<char>>,
}

impl View for MicropubError {
    type V = MicropubErrorView;

    closed spec fn view(&self) -> MicropubErrorView {
        MicropubErrorView {
            error: self.error@,
            error_description: match self.error_description {
                Some(d) => Some(d@),
                None => None,
            },
        }
    }
}

/// The JSON string literal that `serde_json` writes for a text: the text in
/// double quotes, with the characters escaped that JSON wants escaped.
pub uninterp spec fn json_quoted(text: Seq<char>) -> Seq<char>;

/// `serde_json::to_string` on a string: the text as a JSON string literal.
/// Serialising a string cannot fail.
#[verifier::external_body]
fn json_string(text: &str) -> (r: String)
    ensures
        r@ == json_quoted(text@),
{
    serde_json::to_string(text).unwrap_or_default()
}

/// The JSON object with the member `error` and, after it, the member
/// `error_description` where there is one. Both values are taken as they
/// are: they are JSON string literals already.
pub open spec fn error_object_of(error: Seq<char>, description: Option<Seq<char>>) -> Seq<char> {
    "{\"error\":"@ + error + match description {
        Some(d) => ",\"error_description\":"@ + d,
        None => Seq::empty(),
    } + "}"@
}

/// The JSON object that reports `e`: its code and, where it has one, its
/// description, each as a JSON string literal.
pub open spec fn json_of(e: MicropubErrorView) -> Seq<char> {
    error_object_of(
        json_quoted(e.error),
        match e.error_description {
            Some(d) => Some(json_quoted(d)),
            None => None,
        },
    )
}

/// Writes the JSON object with the member `error` and, where there is one,
/// the member `error_description`, from values that are JSON string literals
/// already.
pub fn error_object(error: &str, description: Option<&str>) -> (r: String)
    ensures
        r@ == error_object_of(
            error@,
            match description {
                Some(d) => Some(d@),
                None => None,
            },
        ),
{
    let mut out = String::from_str("{\"error\":");
    out.append(error);
    match description {
        Some(d) => {
            out.append(",\"error_description\":");
            out.append(d);
        },
        None => {
            assert(out@ + Seq::<char>::empty() == out@);
        },
    }
    out.append("}");
    out
}

impl MicropubError {
    /// An error with the code `err` and no description.
    pub fn new(err: &str) -> (r: MicropubError)
        ensures
            r@ == (MicropubErrorView { error: err@, error_description: None }),
    {
        MicropubError { error: String::from_str(err), error_description: None }
    }

    /// An error with the code `err` and a description.
    pub fn with_description(err: &str, description: &str) -> (r: MicropubError)
        ensures
            r@ == (MicropubErrorView { error: err@, error_description: Some(description@) }),
    {
        MicropubError {
            error: String::from_str(err),
            error_description: Some(String::from_str(description)),
        }
    }

    /// The error's code.
    pub fn error(&self) -> (r: &str)
        ensures
            r@ == self@.error,
    {
        self.error.as_str()
    }

    /// The error's description, where it has one.
    pub fn error_description(&self) -> (r: Option<&str>)
        ensures
            match r {
                Some(d) => self@.error_description == Some(d@),
                None => self@.error_description is None,
            },
    {
        match &self.error_description {
            Some(d) => Some(d.as_str()),
            None => None,
        }
    }

    /// The error as a JSON object.
    pub fn to_json(&self) -> (r: String)
        ensures
            r@ == json_of(self@),
    {
        let error = json_string(self.error.as_str());
        match &self.error_description {
            Some(d) => {
                let description = json_string(d.as_str());
                error_object(error.as_str(), Some(description.as_str()))
            },
            None => error_object(error.as_str(), None),
        }
    }
}

/// The scope we require to allow uploads.
pub struct MediaScope;

impl MediaScope {
    /// The scope's name.
    pub open spec fn text() -> Seq<char> {
        "media"@
    }

    /// The scope's name.
    pub fn scope() -> (r: &'static str)
        ensures
            r@ == MediaScope::text(),
    {
        "media"
    }
}

/// Why a caller is not let through.
pub enum AuthError {
    /// No credential, one that the verifier does not accept, or one of
    /// another principal than the site's.
    Unauthenticated,
    /// The credential lacks the required scope.
    InsufficientScope,
    /// The verifier failed; the text says how.
    VerifierUnavailable(String),
}

/// An `AuthError` with its text as plain characters.
pub enum AuthErrorView {
    Unauthenticated,
    InsufficientScope,
    VerifierUnavailable(Seq<char>),
}

impl AuthErrorView {
    /// Which failure this is.
    pub open spec fn failure(self) -> Failure {
        match self {
            AuthErrorView::Unauthenticated => Failure::Unauthenticated,
            AuthErrorView::InsufficientScope => Failure::InsufficientScope,
            AuthErrorView::VerifierUnavailable(_) => Failure::VerifierUnavailable,
        }
    }
}

impl AuthError {
    /// Which failure this is.
    pub fn failure(&self) -> (r: Failure)
        ensures
            r == self@.failure(),
    {
        match self {
            AuthError::Unauthenticated => Failure::Unauthenticated,
            AuthError::InsufficientScope => Failure::InsufficientScope,
            AuthError::VerifierUnavailable(_) => Failure::VerifierUnavailable,
        }
    }
}

impl View for AuthError {
    type V = AuthErrorView;

    open spec fn view(&self) -> AuthErrorView {
        match self {
            AuthError::Unauthenticated => AuthErrorView::Unauthenticated,
            AuthError::InsufficientScope => AuthErrorView::InsufficientScope,
            AuthError::VerifierUnavailable(reason) => AuthErrorView::VerifierUnavailable(reason@),
        }
    }
}

/// How many characters the word `Bearer` and the space after it take.
pub const BEARER_PREFIX_LEN: usize = 7;

/// The credential in an `Authorization` header: what follows `Bearer` and
/// one space. A header that is absent or begins otherwise holds none.
pub open spec fn bearer_of(authorization: Option<Seq<char>>) -> Option<Seq<char>> {
    match authorization {
        Some(h) => if h.len() >= BEARER_PREFIX_LEN && h.take(BEARER_PREFIX_LEN as int)
            == "Bearer "@ {
            Some(h.skip(BEARER_PREFIX_LEN as int))
        } else {
            None
        },
        None => None,
    }
}

/// The credential in an `Authorization` header.
pub fn bearer_credential(authorization: Option<&str>) -> (r: Option<&str>)
    ensures
        match r {
            Some(t) => bearer_of(
                match authorization {
                    Some(h) => Some(h@),
                    None => None,
                },
            ) == Some(t@),
            None => bearer_of(
                match authorization {
                    Some(h) => Some(h@),
                    None => None,
                },
            ) is None,
        },
{
    match authorization {
        Some(h) => {
            let n = h.unicode_len();
            if n >= BEARER_PREFIX_LEN && *h.substring_char(0, BEARER_PREFIX_LEN) == *"Bearer " {
                assert(h@.skip(BEARER_PREFIX_LEN as int) == h@.subrange(
                    BEARER_PREFIX_LEN as int,
                    n as int,
                ));
                Some(h.substring_char(BEARER_PREFIX_LEN, n))
            } else {
                None
            }
        },
        None => None,
    }
}

/// Whether a verified caller may upload: the token must grant the required
/// scope, and where the site allows one principal only, be that
/// principal's.
pub open spec fn authorization_of(
    claims: AccessTokenView,
    required_scope: Seq<char>,
    allowed_principal: Option<Seq<char>>,
) -> Result<(), AuthErrorView> {
    if !claims.grants(required_scope) {
        Err(AuthErrorView::InsufficientScope)
    } else if allowed_principal is Some && allowed_principal != Some(claims.me) {
        Err(AuthErrorView::Unauthenticated)
    } else {
        Ok(())
    }
}

/// `r` as plain values.
pub open spec fn authorization_view(r: Result<(), AuthError>) -> Result<(), AuthErrorView> {
    match r {
        Ok(()) => Ok(()),
        Err(e) => Err(e@),
    }
}

/// Decides whether a verified caller may upload.
pub fn authorize(claims: &AccessToken, required_scope: &str, allowed_principal: Option<&str>) -> (r:
    Result<(), AuthError>)
    ensures
        authorization_view(r) == authorization_of(
            claims@,
            required_scope@,
            match allowed_principal {
                Some(p) => Some(p@),
                None => None,
            },
        ),
{
    if !claims.has_scope(required_scope) {
        return Err(AuthError::InsufficientScope);
    }
    match allowed_principal {
        Some(p) => {
            if *claims.me() == *p {
                Ok(())
            } else {
                Err(AuthError::Unauthenticated)
            }
        },
        None => Ok(()),
    }
}

/// Why the caller is not let through where verification has failed.
pub open spec fn auth_error_of(e: VerificationErrorView) -> AuthErrorView {
    match e {
        VerificationErrorView::Unauthenticated => AuthErrorView::Unauthenticated,
        VerificationErrorView::InternalError(reason) => AuthErrorView::VerifierUnavailable(reason),
    }
}

/// How a refusal is reported: the code `insufficient_scope` for a
/// missing scope and `unauthorized` otherwise, with the verifier's failure
/// as description.
pub open spec fn report_of(e: AuthErrorView) -> MicropubErrorView {
    match e {
        AuthErrorView::Unauthenticated => MicropubErrorView {
            error: "unauthorized"@,
            error_description: None,
        },
        AuthErrorView::InsufficientScope => MicropubErrorView {
            error: "insufficient_scope"@,
            error_description: None,
        },
        AuthErrorView::VerifierUnavailable(reason) => MicropubErrorView {
            error: "unauthorized"@,
            error_description: Some(reason),
        },
    }
}

/// The response that reports a failure with the error `e` as JSON.
pub open spec fn json_response(failure: Failure, e: MicropubErrorView) -> ResponseView {
    ResponseView {
        status: failure.status_code(),
        headers: seq![("content-type"@, "application/json"@)],
        body: BodyView::Text(json_of(e)),
    }
}

/// The response to a caller who is not let through: the failure's status
/// code, which is 401 for each of them, with the error as JSON.
pub open spec fn refusal_of(e: AuthErrorView) -> ResponseView {
    json_response(e.failure(), report_of(e))
}

/// The response to a caller who is not let through.
pub fn refusal(e: &AuthError) -> (r: Response)
    ensures
        r@ == refusal_of(e@),
{
    let report = match e {
        AuthError::Unauthenticated => MicropubError::new("unauthorized"),
        AuthError::InsufficientScope => MicropubError::new("insufficient_scope"),
        AuthError::VerifierUnavailable(reason) => MicropubError::with_description(
            "unauthorized",
            reason.as_str(),
        ),
    };
    let mut headers: Vec<Entry> = Vec::new();
    assert(entries(headers@) =~= Seq::empty());
    push_entry(&mut headers, "content-type", "application/json");
    Response { status: e.failure().status(), headers, body: Body::Text(report.to_json()) }
}

/// The URL under which a new object is published. A photo is published
/// under the route that scales it to the site's default size, anything else
/// under the route of its category.
pub open spec fn public_url_of(site: SiteConfigView, category: Category, name: Seq<char>) -> Seq<
    char,
> {
    if category == Category::Photo {
        site.media_url + "/media/photo/"@ + decimal_text(site.default_width as nat) + seq!['x']
            + decimal_text(site.default_height as nat) + seq!['/'] + name
    } else {
        site.media_url + "/media/"@ + category.text() + seq!['/'] + name
    }
}

/// The URL under which a new object is published.
pub fn public_url(site: &SiteConfig, category: Category, name: &str) -> (r: String)
    ensures
        r@ == public_url_of(site@, category, name@),
{
    let mut out = String::from_str(site.media_url());
    match category {
        Category::Photo => {
            out.append("/media/photo/");
            push_decimal(&mut out, site.default_width());
            out.push('x');
            push_decimal(&mut out, site.default_height());
        },
        _ => {
            out.append("/media/");
            out.append(category.as_str());
        },
    }
    out.push('/');
    out.append(name);
    out
}

/// What is stored beside an object: the client that uploaded it, its
/// author, and the name of the uploaded file where it had one.
pub open spec fn metadata_of(claims: AccessTokenView, filename: Option<Seq<char>>) -> Seq<
    (Seq<char>, Seq<char>),
> {
    let always = seq![("client-id"@, claims.client_id), ("author"@, claims.me)];
    match filename {
        Some(f) => always.push(("filename"@, f)),
        None => always,
    }
}

/// The first part of a multipart upload, without its body.
pub struct PartHead {
    pub content_type: String,
    pub filename: Option<String>,
}

/// A `PartHead` as plain text.
pub struct PartHeadView {
    pub content_type: Seq<char>,
    pub filename: Option<Seq<char>>,
}

impl View for PartHead {
    type V = PartHeadView;

    open spec fn view(&self) -> PartHeadView {
        PartHeadView {
            content_type: self.content_type@,
            filename: match self.filename {
                Some(f) => Some(f@),
                None => None,
            },
        }
    }
}

/// An upload that is ready to be stored, but for its body.
pub struct UploadPlan {
    pub bucket: String,
    pub key: String,
    pub url: String,
    pub metadata: Vec<Entry>,
    pub content_type: String,
}

/// An `UploadPlan` as plain values.
pub struct UploadPlanView {
    pub bucket: Seq<char>,
    pub key: Seq<char>,
    pub url: Seq<char>,
    pub metadata: Seq<(Seq<char>, Seq<char>)>,
    pub content_type: Seq<char>,
}

impl View for UploadPlan {
    type V = UploadPlanView;

    open spec fn view(&self) -> UploadPlanView {
        UploadPlanView {
            bucket: self.bucket@,
            key: self.key@,
            url: self.url@,
            metadata: entries(self.metadata@),
            content_type: self.content_type@,
        }
    }
}

/// The class of the part `head`.
pub open spec fn classification_of_part(head: PartHeadView) -> ClassificationView {
    classification_of(top_level_type(head.content_type), head.filename)
}

/// Where the part `head`, uploaded with the claims `claims`, is stored
/// under the identifier `id`, and how it is published.
pub open spec fn plan_of(
    site: SiteConfigView,
    claims: AccessTokenView,
    head: PartHeadView,
    id: Seq<char>,
) -> UploadPlanView {
    let class = classification_of_part(head);
    let name = object_name_of(id, class);
    UploadPlanView {
        bucket: site.s3_bucket,
        key: object_key_of(class.category.text(), name),
        url: public_url_of(site, class.category, name),
        metadata: metadata_of(claims, head.filename),
        content_type: head.content_type,
    }
}

/// Plans the upload of the part `head` under the identifier `id`.
pub fn plan_upload(site: &SiteConfig, claims: &AccessToken, head: PartHead, id: &str) -> (r:
    UploadPlan)
    ensures
        r@ == plan_of(site@, claims@, head@, id@),
{
    let filename: Option<&str> = match &head.filename {
        Some(f) => Some(f.as_str()),
        None => None,
    };
    let class = classify(head.content_type.as_str(), filename);
    let name = object_name(id, &class);
    let key = object_key(class.category.as_str(), name.as_str());
    let url = public_url(site, class.category, name.as_str());
    let mut metadata: Vec<Entry> = Vec::new();
    assert(entries(metadata@) =~= Seq::empty());
    push_entry(&mut metadata, "client-id", claims.client_id());
    push_entry(&mut metadata, "author", claims.me());
    match filename {
        Some(f) => {
            push_entry(&mut metadata, "filename", f);
        },
        None => {},
    }
    assert(entries(metadata@) =~= metadata_of(claims@, head@.filename));
    UploadPlan {
        bucket: String::from_str(site.s3_bucket()),
        key,
        url,
        metadata,
        content_type: head.content_type,
    }
}

/// One write to the object store.
pub struct PutRequest {
    pub bucket: String,
    pub key: String,
    pub body: Vec<u8>,
    pub metadata: Vec<Entry>,
    pub content_type: String,
}

/// A `PutRequest` as plain values.
pub struct PutRequestView {
    pub bucket: Seq<char>,
    pub key: Seq<char>,
    pub body: Seq<u8>,
    pub metadata: Seq<(Seq<char>, Seq<char>)>,
    pub content_type: Seq<char>,
}

impl View for PutRequest {
    type V = PutRequestView;

    open spec fn view(&self) -> PutRequestView {
        PutRequestView {
            bucket: self.bucket@,
            key: self.key@,
            body: self.body@,
            metadata: entries(self.metadata@),
            content_type: self.content_type@,
        }
    }
}

/// The write that stores `body` as `plan` says.
pub open spec fn put_of(plan: UploadPlanView, body: Seq<u8>) -> PutRequestView {
    PutRequestView {
        bucket: plan.bucket,
        key: plan.key,
        body,
        metadata: plan.metadata,
        content_type: plan.content_type,
    }
}

/// How far an upload has come.
pub enum UploadState {
    /// Nothing has happened yet.
    Start,
    /// The credential is with the verifier.
    Verifying,
    /// The caller is let through; the first part is being looked for.
    AwaitingPart { claims: AccessToken },
    /// The upload is planned; its body is being read.
    AwaitingBody { plan: UploadPlan },
    /// The object is being written; `url` is where it will be published.
    Storing { url: String },
    /// The response is out.
    Finished,
}

/// An `UploadState` as plain values.
pub enum UploadStateView {
    Start,
    Verifying,
    AwaitingPart { claims: AccessTokenView },
    AwaitingBody { plan: UploadPlanView },
    Storing { url: Seq<char> },
    Finished,
}

impl View for UploadState {
    type V = UploadStateView;

    open spec fn view(&self) -> UploadStateView {
        match self {
            UploadState::Start => UploadStateView::Start,
            UploadState::Verifying => UploadStateView::Verifying,
            UploadState::AwaitingPart { claims } => UploadStateView::AwaitingPart {
                claims: claims@,
            },
            UploadState::AwaitingBody { plan } => UploadStateView::AwaitingBody { plan: plan@ },
            UploadState::Storing { url } => UploadStateView::Storing { url: url@ },
            UploadState::Finished => UploadStateView::Finished,
        }
    }
}

/// What has happened outside since the last step.
pub enum UploadEvent {
    /// A request came in, with this `Authorization` header.
    Request { authorization: Option<String> },
    /// The verifier has answered.
    Verified(Result<AccessToken, VerificationError>),
    /// The first part of the upload was found, or the upload has no part.
    Part(Option<PartHead>),
    /// The part's body was read, or reading failed as the text says.
    Body(Result<Vec<u8>, String>),
    /// The object was written, or writing failed as the text says.
    Stored(Result<(), String>),
}

/// An `UploadEvent` as plain values.
pub enum UploadEventView {
    Request { authorization: Option<Seq<char>> },
    Verified(Result<AccessTokenView, VerificationErrorView>),
    Part(Option<PartHeadView>),
    Body(Result<Seq<u8>, Seq<char>>),
    Stored(Result<(), Seq<char>>),
}

impl View for UploadEvent {
    type V = UploadEventView;

    open spec fn view(&self) -> UploadEventView {
        match self {
            UploadEvent::Request { authorization } => UploadEventView::Request {
                authorization: match authorization {
                    Some(h) => Some(h@),
                    None => None,
                },
            },
            UploadEvent::Verified(v) => UploadEventView::Verified(
                match v {
                    Ok(claims) => Ok(claims@),
                    Err(e) => Err(e@),
                },
            ),
            UploadEvent::Part(p) => UploadEventView::Part(
                match p {
                    Some(head) => Some(head@),
                    None => None,
                },
            ),
            UploadEvent::Body(b) => UploadEventView::Body(
                match b {
                    Ok(bytes) => Ok(bytes@),
                    Err(reason) => Err(reason@),
                },
            ),
            UploadEvent::Stored(s) => UploadEventView::Stored(
                match s {
                    Ok(()) => Ok(()),
                    Err(reason) => Err(reason@),
                },
            ),
        }
    }
}

/// What is to be done outside next.
pub enum UploadAction {
    /// Have the verifier check this credential.
    Verify { credential: String },
    /// Look for the first part of the upload.
    ReadPart,
    /// Read the part's body to its end.
    ReadBody,
    /// Write this object.
    Store(PutRequest),
    /// Answer the request.
    Respond(Response),
}

/// An `UploadAction` as plain values.
pub enum UploadActionView {
    Verify { credential: Seq<char> },
    ReadPart,
    ReadBody,
    Store(PutRequestView),
    Respond(ResponseView),
}

impl View for UploadAction {
    type V = UploadActionView;

    open spec fn view(&self) -> UploadActionView {
        match self {
            UploadAction::Verify { credential } => UploadActionView::Verify {
                credential: credential@,
            },
            UploadAction::ReadPart => UploadActionView::ReadPart,
            UploadAction::ReadBody => UploadActionView::ReadBody,
            UploadAction::Store(put) => UploadActionView::Store(put@),
            UploadAction::Respond(response) => UploadActionView::Respond(response@),
        }
    }
}

/// The response to an upload that was stored and is published under `url`.
pub open spec fn created_of(url: Seq<char>) -> ResponseView {
    ResponseView { status: CREATED, headers: seq![("location"@, url)], body: BodyView::Empty }
}

/// The response to an event that cannot follow the state it came in.
pub open spec fn out_of_turn() -> ResponseView {
    plain(Failure::InternalError, "unexpected event"@)
}

/// Whether the site lets the holder of `claims` upload.
pub open spec fn may_upload(site: SiteConfigView, claims: AccessTokenView) -> bool {
    authorization_of(claims, MediaScope::text(), Some(site.allowed_username)) is Ok
}

/// One step of an upload: the state that follows `state` on `event`, and
/// what is to be done next. `id` is the identifier that a new object gets.
///
/// A request without a credential is refused at once, and so is a caller
/// whom the verifier or the site's policy turns down; nothing is read of
/// the upload before that. Of the upload only the first part counts; an
/// upload without a part is answered with 400. The body is stored in one
/// write, and a failure to read or to write it is answered with 500. An
/// event that cannot follow the state ends the upload with 500.
pub open spec fn upload_step(
    site: SiteConfigView,
    state: UploadStateView,
    event: UploadEventView,
    id: Seq<char>,
) -> (UploadStateView, UploadActionView) {
    match (state, event) {
        (UploadStateView::Start, UploadEventView::Request { authorization }) => match bearer_of(
            authorization,
        ) {
            Some(credential) => (
                UploadStateView::Verifying,
                UploadActionView::Verify { credential },
            ),
            None => (
                UploadStateView::Finished,
                UploadActionView::Respond(refusal_of(AuthErrorView::Unauthenticated)),
            ),
        },
        (UploadStateView::Verifying, UploadEventView::Verified(Err(e))) => (
            UploadStateView::Finished,
            UploadActionView::Respond(refusal_of(auth_error_of(e))),
        ),
        (UploadStateView::Verifying, UploadEventView::Verified(Ok(claims))) => {
            match authorization_of(claims, MediaScope::text(), Some(site.allowed_username)) {
                Ok(()) => (UploadStateView::AwaitingPart { claims }, UploadActionView::ReadPart),
                Err(e) => (UploadStateView::Finished, UploadActionView::Respond(refusal_of(e))),
            }
        },
        (UploadStateView::AwaitingPart { claims }, UploadEventView::Part(None)) => (
            UploadStateView::Finished,
            UploadActionView::Respond(bare(Failure::MalformedRequest)),
        ),
        (UploadStateView::AwaitingPart { claims }, UploadEventView::Part(Some(head))) => (
            UploadStateView::AwaitingBody { plan: plan_of(site, claims, head, id) },
            UploadActionView::ReadBody,
        ),
        (UploadStateView::AwaitingBody { plan }, UploadEventView::Body(Ok(body))) => (
            UploadStateView::Storing { url: plan.url },
            UploadActionView::Store(put_of(plan, body)),
        ),
        (UploadStateView::AwaitingBody { plan }, UploadEventView::Body(Err(reason))) => (
            UploadStateView::Finished,
            UploadActionView::Respond(plain(Failure::InternalError, reason)),
        ),
        (UploadStateView::Storing { url }, UploadEventView::Stored(Ok(()))) => (
            UploadStateView::Finished,
            UploadActionView::Respond(created_of(url)),
        ),
        (UploadStateView::Storing { url }, UploadEventView::Stored(Err(reason))) => (
            UploadStateView::Finished,
            UploadActionView::Respond(plain(Failure::StorageError, reason)),
        ),
        _ => (UploadStateView::Finished, UploadActionView::Respond(out_of_turn())),
    }
}

fn finish(response: Response) -> (r: (UploadState, UploadAction))
    ensures
        r.0@ == UploadStateView::Finished,
        r.1@ == UploadActionView::Respond(response@),
{
    (UploadState::Finished, UploadAction::Respond(response))
}

/// The response to an upload that was stored and is published under `url`.
pub fn created(url: &str) -> (r: Response)
    ensures
        r@ == created_of(url@),
{
    let mut headers: Vec<Entry> = Vec::new();
    assert(entries(headers@) =~= Seq::empty());
    push_entry(&mut headers, "location", url);
    Response { status: CREATED, headers, body: Body::Empty }
}

/// Takes an upload one step further: from the state it is in and what has
/// happened, to the state that follows and what is to be done next. The
/// caller does that and comes back with what happened.
pub fn handle_upload(site: &SiteConfig, state: UploadState, event: UploadEvent) -> (r: (
    UploadState,
    UploadAction,
))
    ensures
        exists|id: Seq<char>|
            is_identifier(id) && (r.0@, r.1@) == #[trigger] upload_step(
                site@,
                state@,
                event@,
                id,
            ),
{
    let ghost zeros = seq!['0', '0', '0', '0', '0', '0', '0'];
    let ghost any_id = identifier_text(0, zeros);
    proof {
        assert(is_random_part(zeros));
        assert(is_identifier(any_id));
    }
    let ghost goal = |id: Seq<char>| upload_step(site@, state@, event@, id);
    match (state, event) {
        (UploadState::Start, UploadEvent::Request { authorization }) => {
            let header: Option<&str> = match &authorization {
                Some(h) => Some(h.as_str()),
                None => None,
            };
            let r = match bearer_credential(header) {
                Some(t) => (
                    UploadState::Verifying,
                    UploadAction::Verify { credential: String::from_str(t) },
                ),
                None => finish(refusal(&AuthError::Unauthenticated)),
            };
            assert((r.0@, r.1@) == goal(any_id));
            r
        },
        (UploadState::Verifying, UploadEvent::Verified(Err(e))) => {
            let error = match e {
                VerificationError::Unauthenticated => AuthError::Unauthenticated,
                VerificationError::InternalError(reason) => AuthError::VerifierUnavailable(reason),
            };
            let r = finish(refusal(&error));
            assert((r.0@, r.1@) == goal(any_id));
            r
        },
        (UploadState::Verifying, UploadEvent::Verified(Ok(claims))) => {
            let r = match authorize(
                &claims,
                MediaScope::scope(),
                Some(site.allowed_username()),
            ) {
                Ok(()) => (UploadState::AwaitingPart { claims }, UploadAction::ReadPart),
                Err(e) => finish(refusal(&e)),
            };
            assert((r.0@, r.1@) == goal(any_id));
            r
        },
        (UploadState::AwaitingPart { claims }, UploadEvent::Part(None)) => {
            let r = finish(Response::bare(Failure::MalformedRequest));
            assert((r.0@, r.1@) == goal(any_id));
            r
        },
        (UploadState::AwaitingPart { claims }, UploadEvent::Part(Some(head))) => {
            let id = random_id();
            let plan = plan_upload(site, &claims, head, id.as_str());
            let r = (UploadState::AwaitingBody { plan }, UploadAction::ReadBody);
            assert((r.0@, r.1@) == goal(id@));
            r
        },
        (UploadState::AwaitingBody { plan }, UploadEvent::Body(Ok(body))) => {
            let put = PutRequest {
                bucket: plan.bucket,
                key: plan.key,
                body,
                metadata: plan.metadata,
                content_type: plan.content_type,
            };
            let r = (UploadState::Storing { url: plan.url }, UploadAction::Store(put));
            assert((r.0@, r.1@) == goal(any_id));
            r
        },
        (UploadState::AwaitingBody { plan }, UploadEvent::Body(Err(reason))) => {
            let r = finish(Response::plain(Failure::InternalError, reason.as_str()));
            assert((r.0@, r.1@) == goal(any_id));
            r
        },
        (UploadState::Storing { url }, UploadEvent::Stored(Ok(()))) => {
            let r = finish(created(url.as_str()));
            assert((r.0@, r.1@) == goal(any_id));
            r
        },
        (UploadState::Storing { url }, UploadEvent::Stored(Err(reason))) => {
            let r = finish(Response::plain(Failure::StorageError, reason.as_str()));
            assert((r.0@, r.1@) == goal(any_id));
            r
        },
        _ => {
            let r = finish(Response::plain(Failure::InternalError, "unexpected event"));
            assert((r.0@, r.1@) == goal(any_id));
            r
        },
    }
}

/// The state that an upload is in after `events`, and the actions that its
/// steps have asked for, one for each event. The upload starts in
/// `Start`; the step at the place `i` has `ids(i)` for a new identifier.
pub open spec fn upload_run(
    site: SiteConfigView,
    events: Seq<UploadEventView>,
    ids: spec_fn(int) -> Seq<char>,
) -> (UploadStateView, Seq<UploadActionView>)
    decreases events.len(),
{
    if events.len() == 0 {
        (UploadStateView::Start, Seq::empty())
    } else {
        let (state, actions) = upload_run(site, events.drop_last(), ids);
        let (next, action) = upload_step(site, state, events.last(), ids(events.len() - 1));
        (next, actions.push(action))
    }
}

/// Whether `event` is the verifier's word on a caller whom the site lets
/// upload.
pub open spec fn lets_through(site: SiteConfigView, event: UploadEventView) -> bool {
    event matches UploadEventView::Verified(Ok(claims)) && may_upload(site, claims)
}

/// Whether one of the first `n` events has let the caller through.
pub open spec fn let_through_within(
    site: SiteConfigView,
    events: Seq<UploadEventView>,
    n: int,
) -> bool {
    exists|j: int| 0 <= j < n && lets_through(site, #[trigger] events[j])
}

/// An upload has as many actions as events.
proof fn lemma_run_len(
    site: SiteConfigView,
    events: Seq<UploadEventView>,
    ids: spec_fn(int) -> Seq<char>,
)
    ensures
        upload_run(site, events, ids).1.len() == events.len(),
    decreases events.len(),
{
    if events.len() > 0 {
        lemma_run_len(site, events.drop_last(), ids);
    }
}

/// The action at a place is the step taken there from the state that the
/// events before it led to.
proof fn lemma_run_step(
    site: SiteConfigView,
    events: Seq<UploadEventView>,
    ids: spec_fn(int) -> Seq<char>,
    k: int,
)
    requires
        0 <= k < events.len(),
    ensures
        upload_run(site, events, ids).1[k] == upload_step(
            site,
            upload_run(site, events.take(k), ids).0,
            events[k],
            ids(k),
        ).1,
    decreases events.len(),
{
    let before = events.drop_last();
    lemma_run_len(site, before, ids);
    if k == events.len() - 1 {
        assert(events.take(k) == before);
    } else {
        lemma_run_step(site, before, ids, k);
        assert(before.take(k) == events.take(k));
    }
}

/// While an upload waits for its part or for its body, the caller has been
/// let through.
proof fn lemma_waiting_is_let_through(
    site: SiteConfigView,
    events: Seq<UploadEventView>,
    ids: spec_fn(int) -> Seq<char>,
)
    ensures
        (upload_run(site, events, ids).0 is AwaitingPart || upload_run(site, events, ids).0
            is AwaitingBody) ==> let_through_within(site, events, events.len() as int),
    decreases events.len(),
{
    if events.len() > 0 {
        let before = events.drop_last();
        lemma_waiting_is_let_through(site, before, ids);
        let state = upload_run(site, before, ids).0;
        let next = upload_run(site, events, ids).0;
        if next is AwaitingPart || next is AwaitingBody {
            if state is AwaitingPart {
                let j = choose|j: int|
                    0 <= j < before.len() && lets_through(site, #[trigger] before[j]);
                assert(lets_through(site, events[j]));
            } else {
                assert(state is Verifying);
                assert(lets_through(site, events[events.len() - 1]));
            }
        }
    }
}

/// Nothing is written before the caller is let through: where a step of an
/// upload asks for a write, an earlier event was the verifier's word on a
/// caller whom the site lets upload.
pub proof fn lemma_store_follows_authorization(
    site: SiteConfigView,
    events: Seq<UploadEventView>,
    ids: spec_fn(int) -> Seq<char>,
    k: int,
)
    requires
        0 <= k < events.len(),
        upload_run(site, events, ids).1[k] is Store,
    ensures
        let_through_within(site, events, k),
{
    lemma_run_step(site, events, ids, k);
    lemma_waiting_is_let_through(site, events.take(k), ids);
    let j = choose|j: int| 0 <= j < k && lets_through(site, #[trigger] events.take(k)[j]);
    assert(lets_through(site, events[j]));
}

/// Once a step has asked for a write, the upload is being stored or is
/// finished.
proof fn lemma_after_write(
    site: SiteConfigView,
    events: Seq<UploadEventView>,
    ids: spec_fn(int) -> Seq<char>,
    k: int,
    n: int,
)
    requires
        0 <= k < n <= events.len(),
        upload_run(site, events, ids).1[k] is Store,
    ensures
        upload_run(site, events.take(n), ids).0 is Storing || upload_run(
            site,
            events.take(n),
            ids,
        ).0 is Finished,
    decreases n,
{
    assert(events.take(n).drop_last() == events.take(n - 1));
    if n == k + 1 {
        lemma_run_step(site, events, ids, k);
    } else {
        lemma_after_write(site, events, ids, k, n - 1);
    }
}

/// An upload is stored in one write: a step that follows one that asked for
/// a write asks for none.
pub proof fn lemma_one_write(
    site: SiteConfigView,
    events: Seq<UploadEventView>,
    ids: spec_fn(int) -> Seq<char>,
    first: int,
    second: int,
)
    requires
        0 <= first < second < events.len(),
        upload_run(site, events, ids).1[first] is Store,
    ensures
        !(upload_run(site, events, ids).1[second] is Store),
{
    lemma_after_write(site, events, ids, first, second);
    lemma_run_step(site, events, ids, second);
}

/// Under the URL that an upload is published at, the object that was stored
/// is asked for: the URL is the site's base URL followed by the route of
/// the object's category, and that route, taken apart, names the bucket and
/// the key of the write. A photo's route also names the site's default
/// size.
pub proof fn lemma_published_is_stored(
    site: SiteConfigView,
    claims: AccessTokenView,
    head: PartHeadView,
    id: Seq<char>,
)
    ensures
        ({
            let plan = plan_of(site, claims, head, id);
            let class = classification_of_part(head);
            let name = object_name_of(id, class);
            if class.category == Category::Photo {
                let width = decimal_text(site.default_width as nat);
                let height = decimal_text(site.default_height as nat);
                &&& plan.url == site.media_url + "/media/photo/"@ + width + seq!['x'] + height
                    + seq!['/'] + name
                &&& crate::media::requested_photo(site, Some(width), Some(height), Some(name))
                    == Some(((plan.bucket, plan.key), site.default_width, site.default_height))
            } else {
                &&& plan.url == site.media_url + "/media/"@ + class.category.text() + seq!['/']
                    + name
                &&& crate::media::requested_object(site, Some(class.category.text()), Some(name))
                    == Some((plan.bucket, plan.key))
            }
        }),
{
    crate::text::lemma_parse_decimal_text(site.default_width);
    crate::text::lemma_parse_decimal_text(site.default_height);
}

} // verus!
