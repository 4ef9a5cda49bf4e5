//! What the endpoint answers: a status code, headers, and a body.

use vstd::prelude::*;
use vstd::string::StringExecFns;

verus! {

/// The status code of a response that serves what was asked for.
pub const OK: u16 = 200;

/// The status code of a response to an upload that was stored.
pub const CREATED: u16 = 201;

/// The status code of a response to a request that cannot be read.
pub const BAD_REQUEST: u16 = 400;

/// The status code of a response to a caller who is not let through.
pub const UNAUTHORIZED: u16 = 401;

/// The status code of a response to a request for what is not there.
pub const NOT_FOUND: u16 = 404;

/// The status code of a response to a request that failed on this side.
pub const INTERNAL_SERVER_ERROR: u16 = 500;

/// The ways in which a request can fail.
#[derive(Clone, Copy, Debug, PartialEq, Eq, Structural)]
pub enum Failure {
    /// The caller shows no credential, or one that is not accepted.
    Unauthenticated,
    /// The caller's credential lacks the scope that is required.
    InsufficientScope,
    /// The verifier of credentials failed.
    VerifierUnavailable,
    /// The request lacks a part, or a part of it cannot be read.
    MalformedRequest,
    /// The object asked for is not there.
    NotFound,
    /// The object store failed.
    StorageError,
    /// A picture could not be decoded or encoded.
    ImageError,
    /// Anything else, such as a body that could not be read to its end.
    InternalError,
}

impl Failure {
    /// The status code under which the failure is reported.
    pub open spec fn status_code(self) -> u16 {
        match self {
            Failure::Unauthenticated => UNAUTHORIZED,
            Failure::InsufficientScope => UNAUTHORIZED,
            Failure::VerifierUnavailable => UNAUTHORIZED,
            Failure::MalformedRequest => BAD_REQUEST,
            Failure::NotFound => NOT_FOUND,
            Failure::StorageError => INTERNAL_SERVER_ERROR,
            Failure::ImageError => INTERNAL_SERVER_ERROR,
            Failure::InternalError => INTERNAL_SERVER_ERROR,
        }
    }

    /// Whether the failure may pass by itself, so that it is worth an
    /// operator's attention: only a failure of the verifier or of the store
    /// is; every other is the caller's doing.
    pub open spec fn transient(self) -> bool {
        self == Failure::VerifierUnavailable || self == Failure::StorageError
    }

    /// The status code under which the failure is reported.
    pub fn status(self) -> (r: u16)
        ensures
            r == self.status_code(),
    {
        match self {
            Failure::Unauthenticated => UNAUTHORIZED,
            Failure::InsufficientScope => UNAUTHORIZED,
            Failure::VerifierUnavailable => UNAUTHORIZED,
            Failure::MalformedRequest => BAD_REQUEST,
            Failure::NotFound => NOT_FOUND,
            Failure::StorageError => INTERNAL_SERVER_ERROR,
            Failure::ImageError => INTERNAL_SERVER_ERROR,
            Failure::InternalError => INTERNAL_SERVER_ERROR,
        }
    }

    /// Whether the failure may pass by itself.
    pub fn is_transient(self) -> (r: bool)
        ensures
            r == self.transient(),
    {
        match self {
            Failure::VerifierUnavailable => true,
            Failure::StorageError => true,
            _ => false,
        }
    }
}

/// A name with its value: a header of a response, or an entry of an
/// object's metadata.
pub struct Entry {
    pub name: String,
    pub value: String,
}

impl View for Entry {
    type V = (Seq<char>, Seq<char>);

    open spec fn view(&self) -> (Seq<char>, Seq<char>) {
        (self.name@, self.value@)
    }
}

/// The entries of `v` as pairs of plain text.
pub open spec fn entries(v: Seq<Entry>) -> Seq<(Seq<char>, Seq<char>)> {
    v.map_values(|e: Entry| e@)
}

/// The body of a response.
pub enum Body {
    /// No body.
    Empty,
    /// The text, as it is.
    Text(String),
    /// The bytes, as they are.
    Bytes(Vec<u8>),
    /// The body of the stored object, passed through unchanged.
    Stored,
}

/// A `Body` as plain values.
pub enum BodyView {
    Empty,
    Text(Seq<char>),
    Bytes(Seq<u8>),
    Stored,
}

impl View for Body {
    type V = BodyView;

    open spec fn view(&self) -> BodyView {
        match self {
            Body::Empty => BodyView::Empty,
            Body::Text(t) => BodyView::Text(t@),
            Body::Bytes(b) => BodyView::Bytes(b@),
            Body::Stored => BodyView::Stored,
        }
    }
}

/// A response of the endpoint.
pub struct Response {
    pub status: u16,
    pub headers: Vec<Entry>,
    pub body: Body,
}

/// A `Response` as plain values.
pub struct ResponseView {
    pub status: u16,
    pub headers: Seq<(Seq<char>, Seq<char>)>,
    pub body: BodyView,
}

impl View for Response {
    type V = ResponseView;

    open spec fn view(&self) -> ResponseView {
        ResponseView { status: self.status, headers: entries(self.headers@), body: self.body@ }
    }
}

/// The response that reports a failure by its status code alone.
pub open spec fn bare(failure: Failure) -> ResponseView {
    ResponseView { status: failure.status_code(), headers: Seq::empty(), body: BodyView::Empty }
}

/// The response that reports a failure in the words `text`.
pub open spec fn plain(failure: Failure, text: Seq<char>) -> ResponseView {
    ResponseView {
        status: failure.status_code(),
        headers: Seq::empty(),
        body: BodyView::Text(text),
    }
}

/// Appends the entry `name`: `value` to `list`.
pub fn push_entry(list: &mut Vec<Entry>, name: &str, value: &str)
    ensures
        entries(final(list)@) == entries(old(list)@).push((name@, value@)),
{
    let entry = Entry { name: String::from_str(name), value: String::from_str(value) };
    list.push(entry);
    assert(entries(list@) =~= entries(old(list)@).push((name@, value@)));
}

impl Response {
    /// The response that reports a failure by its status code alone.
    pub fn bare(failure: Failure) -> (r: Response)
        ensures
            r@ == bare(failure),
    {
        let r = Response { status: failure.status(), headers: Vec::new(), body: Body::Empty };
        assert(entries(r.headers@) =~= Seq::empty());
        r
    }

    /// The response that reports a failure in the words `text`.
    pub fn plain(failure: Failure, text: &str) -> (r: Response)
        ensures
            r@ == plain(failure, text@),
    {
        let r = Response {
            status: failure.status(),
            headers: Vec::new(),
            body: Body::Text(String::from_str(text)),
        };
        assert(entries(r.headers@) =~= Seq::empty());
        r
    }
}

} // verus!
