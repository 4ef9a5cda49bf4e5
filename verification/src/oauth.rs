//! What a verified bearer credential says of its holder, and how the
//! verifier's answer is read.

use vstd::prelude::*;
use vstd::string::StringExecFns;

verus! {

/// The texts of a sequence of strings.
pub open spec fn texts(v: Seq<String>) -> Seq<Seq<char>> {
    v.map_values(|s: String| s@)
}

/// Whether `c` is ASCII whitespace: a space, a tab, a line feed, a form
/// feed or a carriage return.
pub open spec fn is_space(c: char) -> bool {
    c == ' ' || c == '\t' || c == '\n' || c == '\x0C' || c == '\r'
}

/// Reading `s` from the left: the words that have ended, and the word that
/// is still running (empty between words).
pub open spec fn words_and_rest(s: Seq<char>) -> (Seq<Seq<char>>, Seq<char>)
    decreases s.len(),
{
    if s.len() == 0 {
        (Seq::empty(), Seq::empty())
    } else {
        let (done, run) = words_and_rest(s.drop_last());
        if !is_space(s.last()) {
            (done, run.push(s.last()))
        } else if run.len() > 0 {
            (done.push(run), Seq::empty())
        } else {
            (done, run)
        }
    }
}

/// The words of `s`: its longest runs of characters that are not ASCII
/// whitespace, in order.
pub open spec fn words(s: Seq<char>) -> Seq<Seq<char>> {
    let (done, run) = words_and_rest(s);
    if run.len() > 0 {
        done.push(run)
    } else {
        done
    }
}

/// Whether `w` is a word: not empty, and without ASCII whitespace.
pub open spec fn is_word(w: Seq<char>) -> bool {
    w.len() > 0 && forall|k: int| 0 <= k < w.len() ==> !is_space(#[trigger] w[k])
}

/// The words that have ended are words, and the running word holds no
/// whitespace.
proof fn lemma_words_and_rest(s: Seq<char>)
    ensures
        forall|i: int|
            0 <= i < words_and_rest(s).0.len() ==> is_word(#[trigger] words_and_rest(s).0[i]),
        forall|k: int|
            0 <= k < words_and_rest(s).1.len() ==> !is_space(#[trigger] words_and_rest(s).1[k]),
    decreases s.len(),
{
    if s.len() > 0 {
        lemma_words_and_rest(s.drop_last());
        let (done, run) = words_and_rest(s.drop_last());
        let (done2, run2) = words_and_rest(s);
        assert forall|i: int| 0 <= i < done2.len() implies is_word(#[trigger] done2[i]) by {
            if i < done.len() {
                assert(done2[i] == done[i]);
            } else {
                assert(done2[i] == run);
            }
        }
        assert forall|k: int| 0 <= k < run2.len() implies !is_space(#[trigger] run2[k]) by {
            if k < run.len() {
                assert(run2[k] == run[k]);
            }
        }
    }
}

/// Every scope that a token lists is a word: it is not empty and holds no
/// whitespace.
pub proof fn lemma_words_are_words(s: Seq<char>)
    ensures
        forall|i: int| 0 <= i < words(s).len() ==> is_word(#[trigger] words(s)[i]),
{
    lemma_words_and_rest(s);
}

/// A verified access token: who holds it, which client obtained it, and
/// what it was granted.
pub struct AccessToken {
    me: String,
    client_id: String,
    scope: String,
}

/// What an `AccessToken` holds, as plain text.
pub struct AccessTokenView {
    pub me: Seq<char>,
    pub client_id: Seq<char>,
    pub scope: Seq<char>,
}

impl View for AccessToken {
    type V = AccessTokenView;

    closed spec fn view(&self) -> AccessTokenView {
        AccessTokenView { me: self.me@, client_id: self.client_id@, scope: self.scope@ }
    }
}

impl AccessTokenView {
    /// The scopes granted: the words of the scope text.
    pub open spec fn scopes(self) -> Seq<Seq<char>> {
        words(self.scope)
    }

    /// Whether `scope` is among the scopes granted.
    pub open spec fn grants(self, scope: Seq<char>) -> bool {
        self.scopes().contains(scope)
    }
}

impl AccessToken {
    /// A token of the principal `me`, obtained by the client `client_id`,
    /// with the scopes listed in `scope`, separated by whitespace.
    pub fn new(me: String, client_id: String, scope: String) -> (r: AccessToken)
        ensures
            r@ == (AccessTokenView { me: me@, client_id: client_id@, scope: scope@ }),
    {
        AccessToken { me, client_id, scope }
    }

    /// The principal that the token speaks for.
    pub fn me(&self) -> (r: &str)
        ensures
            r@ == self@.me,
    {
        self.me.as_str()
    }

    /// The client that obtained the token.
    pub fn client_id(&self) -> (r: &str)
        ensures
            r@ == self@.client_id,
    {
        self.client_id.as_str()
    }

    /// The scopes granted, in the order in which the token lists them.
    pub fn scopes(&self) -> (r: Vec<String>)
        ensures
            texts(r@) == self@.scopes(),
    {
        let mut done: Vec<String> = Vec::new();
        let mut run = String::new();
        for c in it: self.scope.as_str().chars()
            invariant
                it.seq() == self.scope@,
                (texts(done@), run@) == words_and_rest(self.scope@.take(it.index())),
        {
            proof {
                assert(self.scope@.take(it.index() + 1).drop_last() == self.scope@.take(
                    it.index(),
                ));
            }
            if !(c == ' ' || c == '\t' || c == '\n' || c == '\x0C' || c == '\r') {
                run.push(c);
            } else if run.as_str().unicode_len() > 0 {
                let ghost before = done@;
                done.push(run);
                assert(texts(done@) == texts(before).push(run@));
                run = String::new();
            }
        }
        assert(self.scope@.take(self.scope@.len() as int) == self.scope@);
        if run.as_str().unicode_len() > 0 {
            let ghost before = done@;
            done.push(run);
            assert(texts(done@) == texts(before).push(run@));
        }
        done
    }

    /// Whether `scope` is among the scopes granted.
    pub fn has_scope(&self, scope: &str) -> (r: bool)
        ensures
            r == self@.grants(scope@),
    {
        let granted = self.scopes();
        let mut i: usize = 0;
        while i < granted.len()
            invariant
                i <= granted.len(),
                texts(granted@) == self@.scopes(),
                forall|k: int| 0 <= k < i ==> texts(granted@)[k] != scope@,
            decreases granted.len() - i,
        {
            assert(texts(granted@)[i as int] == granted@[i as int]@);
            if *granted[i].as_str() == *scope {
                return true;
            }
            i = i + 1;
        }
        false
    }
}

/// Why a credential was not verified.
#[derive(Debug)]
pub enum VerificationError {
    /// The verifier does not accept the credential.
    Unauthenticated,
    /// The verifier failed; the text says how.
    InternalError(String),
}

/// A `VerificationError` with its text as plain characters.
pub enum VerificationErrorView {
    Unauthenticated,
    InternalError(Seq<char>),
}

impl View for VerificationError {
    type V = VerificationErrorView;

    open spec fn view(&self) -> VerificationErrorView {
        match self {
            VerificationError::Unauthenticated => VerificationErrorView::Unauthenticated,
            VerificationError::InternalError(reason) => VerificationErrorView::InternalError(
                reason@,
            ),
        }
    }
}

impl VerificationError {
    /// The error in words.
    pub fn message(&self) -> (r: &'static str)
        ensures
            r@ == match self@ {
                VerificationErrorView::Unauthenticated => "Unauthenticated"@,
                VerificationErrorView::InternalError(_) => "AuthServer Error"@,
            },
    {
        match self {
            VerificationError::Unauthenticated => "Unauthenticated",
            VerificationError::InternalError(_) => "AuthServer Error",
        }
    }
}

/// The reason phrase that the `http` crate lists for a status code; `None`
/// for a code that it lists none for.
pub uninterp spec fn reason_phrase(status: u16) -> Option<Seq<char>>;

/// `StatusCode::from_u16` and `StatusCode::canonical_reason` of the `http`
/// crate, as actix-web hands it on: the reason phrase listed for `status`.
#[verifier::external_body]
fn canonical_reason(status: u16) -> (r: Option<&'static str>)
    ensures
        match r {
            Some(t) => reason_phrase(status) == Some(t@),
            None => reason_phrase(status) is None,
        },
{
    match actix_web::http::StatusCode::from_u16(status) {
        Ok(code) => code.canonical_reason(),
        Err(_) => None,
    }
}

/// Whether a status code reports success: 200 to 299.
pub open spec fn is_success(status: u16) -> bool {
    200 <= status < 300
}

/// What is said of a failed verifier whose status code has the reason
/// phrase `reason`.
pub open spec fn failure_text(reason: Option<Seq<char>>) -> Seq<char> {
    match reason {
        Some(t) => t,
        None => "Unknown Error"@,
    }
}

/// How the verifier's status code is read: success lets the answer through,
/// 401 means that the credential is not accepted, and anything else is a
/// failure of the verifier, told by the reason phrase `reason` of the code.
pub open spec fn status_verdict(status: u16, reason: Option<Seq<char>>) -> Result<
    (),
    VerificationErrorView,
> {
    if is_success(status) {
        Ok(())
    } else if status == 401 {
        Err(VerificationErrorView::Unauthenticated)
    } else {
        Err(VerificationErrorView::InternalError(failure_text(reason)))
    }
}

/// The verdict `r` as plain values.
pub open spec fn verdict_view(r: Result<(), VerificationError>) -> Result<
    (),
    VerificationErrorView,
> {
    match r {
        Ok(()) => Ok(()),
        Err(e) => Err(e@),
    }
}

/// Reads the verifier's status code, given the reason phrase of the code.
pub fn read_status(status: u16, reason: Option<&str>) -> (r: Result<(), VerificationError>)
    ensures
        verdict_view(r) == status_verdict(
            status,
            match reason {
                Some(t) => Some(t@),
                None => None,
            },
        ),
{
    if 200 <= status && status < 300 {
        Ok(())
    } else if status == 401 {
        Err(VerificationError::Unauthenticated)
    } else {
        let text = match reason {
            Some(t) => t,
            None => "Unknown Error",
        };
        Err(VerificationError::InternalError(String::from_str(text)))
    }
}

/// What is asked of the verifier: a GET of `url` that carries the caller's
/// credential in its `Authorization` header.
pub struct VerificationRequest {
    pub url: String,
    pub authorization: String,
}

/// Checks credentials against a token endpoint.
pub struct VerificationService {
    token_endpoint: String,
}

impl VerificationService {
    /// The endpoint that credentials are checked against.
    pub closed spec fn endpoint(&self) -> Seq<char> {
        self.token_endpoint@
    }

    /// A service that checks credentials against `token_endpoint`.
    pub fn new(token_endpoint: String) -> (r: VerificationService)
        ensures
            r.endpoint() == token_endpoint@,
    {
        VerificationService { token_endpoint }
    }

    /// The endpoint that credentials are checked against.
    pub fn token_endpoint(&self) -> (r: &str)
        ensures
            r@ == self.endpoint(),
    {
        self.token_endpoint.as_str()
    }

    /// The request that checks the credential `auth_token`.
    pub fn request(&self, auth_token: &str) -> (r: VerificationRequest)
        ensures
            r.url@ == self.endpoint(),
            r.authorization@ == auth_token@,
    {
        VerificationRequest {
            url: self.token_endpoint.clone(),
            authorization: String::from_str(auth_token),
        }
    }

    /// Reads the status code of the verifier's answer. On `Ok` the answer's
    /// body holds the token.
    pub fn validate(&self, status: u16) -> (r: Result<(), VerificationError>)
        ensures
            verdict_view(r) == status_verdict(status, reason_phrase(status)),
    {
        read_status(status, canonical_reason(status))
    }
}

} // verus!
