//! Serving stored objects: which object a request means, and what is
//! answered once the object store has spoken.

use vstd::prelude::*;
use vstd::string::StringExecFns;
use crate::classification::{object_key, object_key_of};
use crate::config::{SiteConfig, SiteConfigView};
use crate::response::{
    entries, plain, push_entry, Body, BodyView, Entry, Failure, Response, ResponseView, OK,
};
use crate::text::{parse_decimal, parsed_decimal, text_of};
use crate::transform::{scale_image, scaled, scaled_view, ScaleError, ScaleErrorView};

verus! {

/// How long an object may be cached where it does not say so itself: a
/// year.
pub const DEFAULT_CACHE_CONTROL: &'static str = "max-age=31557600";

/// The headers that the object store keeps with an object.
pub struct ObjectHeaders {
    pub cache_control: Option<String>,
    pub content_disposition: Option<String>,
    pub content_encoding: Option<String>,
    pub content_language: Option<String>,
    pub content_type: Option<String>,
    pub e_tag: Option<String>,
    pub last_modified: Option<String>,
}

/// `ObjectHeaders` as plain text.
pub struct ObjectHeadersView {
    pub cache_control: Option<Seq<char>>,
    pub content_disposition: Option<Seq<char>>,
    pub content_encoding: Option<Seq<char>>,
    pub content_language: Option<Seq<char>>,
    pub content_type: Option<Seq<char>>,
    pub e_tag: Option<Seq<char>>,
    pub last_modified: Option<Seq<char>>,
}

impl View for ObjectHeaders {
    type V = ObjectHeadersView;

    open spec fn view(&self) -> ObjectHeadersView {
        ObjectHeadersView {
            cache_control: text_of(self.cache_control),
            content_disposition: text_of(self.content_disposition),
            content_encoding: text_of(self.content_encoding),
            content_language: text_of(self.content_language),
            content_type: text_of(self.content_type),
            e_tag: text_of(self.e_tag),
            last_modified: text_of(self.last_modified),
        }
    }
}

/// The header `name` with the value `value`, or no header where there is no
/// value.
pub open spec fn header_if(name: Seq<char>, value: Option<Seq<char>>) -> Seq<
    (Seq<char>, Seq<char>),
> {
    match value {
        Some(v) => seq![(name, v)],
        None => Seq::empty(),
    }
}

/// The headers of a response that serves an object with the stored headers
/// `h`. The object's own cache lifetime stands in place of the default one;
/// any origin may read the response; and of the stored headers those named
/// here are passed on as they are, and no others.
pub open spec fn response_headers_of(h: ObjectHeadersView) -> Seq<(Seq<char>, Seq<char>)> {
    seq![
        (
            "cache-control"@,
            match h.cache_control {
                Some(v) => v,
                None => DEFAULT_CACHE_CONTROL@,
            },
        ),
        ("access-control-allow-origin"@, "*"@),
    ] + header_if("content-disposition"@, h.content_disposition) + header_if(
        "content-encoding"@,
        h.content_encoding,
    ) + header_if("content-language"@, h.content_language) + header_if(
        "content-type"@,
        h.content_type,
    ) + header_if("etag"@, h.e_tag) + header_if("last-modified"@, h.last_modified)
}

/// The names of the headers that a response may carry for a stored
/// object.
pub open spec fn served_names() -> Seq<Seq<char>> {
    seq![
        "cache-control"@,
        "access-control-allow-origin"@,
        "content-disposition"@,
        "content-encoding"@,
        "content-language"@,
        "content-type"@,
        "etag"@,
        "last-modified"@,
    ]
}

/// Where among the served names the name of the header at the place `i` of
/// the served headers stands: at `i`, moved on by one for every name before
/// it whose header the object lacks.
spec fn name_place(h: ObjectHeadersView, i: int) -> int {
    let skipped = |v: Option<Seq<char>>| if v is Some { 0int } else { 1int };
    let after_disposition = i + (if i >= 2 { skipped(h.content_disposition) } else { 0 });
    let after_encoding = after_disposition + (if after_disposition >= 3 {
        skipped(h.content_encoding)
    } else {
        0
    });
    let after_language = after_encoding + (if after_encoding >= 4 {
        skipped(h.content_language)
    } else {
        0
    });
    let after_type = after_language + (if after_language >= 5 {
        skipped(h.content_type)
    } else {
        0
    });
    let after_etag = after_type + (if after_type >= 6 { skipped(h.e_tag) } else { 0 });
    after_etag
}

/// The served names differ from one another, and `connection` is none of
/// them.
proof fn lemma_served_names_differ()
    ensures
        forall|i: int, j: int|
            0 <= i < j < served_names().len() ==> served_names()[i] != served_names()[j],
        forall|i: int| 0 <= i < served_names().len() ==> served_names()[i] != "connection"@,
{
    reveal_strlit("cache-control");
    reveal_strlit("access-control-allow-origin");
    reveal_strlit("content-disposition");
    reveal_strlit("content-encoding");
    reveal_strlit("content-language");
    reveal_strlit("content-type");
    reveal_strlit("etag");
    reveal_strlit("last-modified");
    reveal_strlit("connection");
    let n = served_names();
    assert(n[0].len() == 13 && n[1].len() == 27 && n[2].len() == 19 && n[3].len() == 16);
    assert(n[4].len() == 16 && n[5].len() == 12 && n[6].len() == 4 && n[7].len() == 13);
    assert(n[0][0] == 'c' && n[7][0] == 'l');
    assert(n[3][9] == 'n' && n[4][9] == 'a');
    assert("connection"@.len() == 10);
}

/// What a response carries for a stored object, whatever the store holds
/// for it: first the cache lifetime, the object's own where it has one and
/// a year where it has none; then the leave for any origin to read the
/// response; and then only headers from the served names, each at most
/// once. `connection` is never among them.
pub proof fn lemma_response_headers(h: ObjectHeadersView)
    ensures
        response_headers_of(h).len() >= 2,
        response_headers_of(h)[0] == (
            "cache-control"@,
            match h.cache_control {
                Some(v) => v,
                None => DEFAULT_CACHE_CONTROL@,
            },
        ),
        response_headers_of(h)[1] == ("access-control-allow-origin"@, "*"@),
        forall|i: int|
            0 <= i < response_headers_of(h).len() ==> served_names().contains(
                #[trigger] response_headers_of(h)[i].0,
            ),
        forall|i: int|
            0 <= i < response_headers_of(h).len() ==> #[trigger] response_headers_of(h)[i].0
                != "connection"@,
        forall|i: int, j: int|
            0 <= i < j < response_headers_of(h).len() ==> #[trigger] response_headers_of(h)[i].0
                != #[trigger] response_headers_of(h)[j].0,
{
    lemma_served_names_differ();
    let r = response_headers_of(h);
    let n = served_names();
    assert forall|i: int| 0 <= i < r.len() implies 0 <= name_place(h, i) < 8 && r[i].0
        == n[name_place(h, i)] by {}
    assert forall|i: int, j: int| 0 <= i < j < r.len() implies name_place(h, i) < name_place(
        h,
        j,
    ) by {}
    assert forall|i: int| 0 <= i < r.len() implies served_names().contains(
        #[trigger] r[i].0,
    ) by {
        assert(r[i].0 == n[name_place(h, i)]);
    }
    assert forall|i: int, j: int| 0 <= i < j < r.len() implies #[trigger] r[i].0
        != #[trigger] r[j].0 by {
        assert(r[i].0 == n[name_place(h, i)]);
        assert(r[j].0 == n[name_place(h, j)]);
        assert(name_place(h, i) < name_place(h, j));
    }
    assert forall|i: int| 0 <= i < r.len() implies #[trigger] r[i].0 != "connection"@ by {
        assert(r[i].0 == n[name_place(h, i)]);
    }
}

fn push_if(list: &mut Vec<Entry>, name: &str, value: &Option<String>)
    ensures
        entries(final(list)@) == entries(old(list)@) + header_if(name@, text_of(*value)),
{
    match value {
        Some(v) => {
            push_entry(list, name, v.as_str());
            assert(entries(list@) =~= entries(old(list)@) + header_if(name@, text_of(*value)));
        },
        None => {
            assert(entries(list@) =~= entries(old(list)@) + header_if(name@, text_of(*value)));
        },
    }
}

/// The headers of a response that serves an object with the stored headers
/// `stored`.
pub fn response_for(stored: &ObjectHeaders) -> (r: Vec<Entry>)
    ensures
        entries(r@) == response_headers_of(stored@),
{
    let mut list: Vec<Entry> = Vec::new();
    assert(entries(list@) =~= Seq::empty());
    let cache_control = match &stored.cache_control {
        Some(v) => v.as_str(),
        None => DEFAULT_CACHE_CONTROL,
    };
    push_entry(&mut list, "cache-control", cache_control);
    push_entry(&mut list, "access-control-allow-origin", "*");
    push_if(&mut list, "content-disposition", &stored.content_disposition);
    push_if(&mut list, "content-encoding", &stored.content_encoding);
    push_if(&mut list, "content-language", &stored.content_language);
    push_if(&mut list, "content-type", &stored.content_type);
    push_if(&mut list, "etag", &stored.e_tag);
    push_if(&mut list, "last-modified", &stored.last_modified);
    assert(entries(list@) =~= response_headers_of(stored@));
    list
}

/// An object of the store, named by its bucket and key.
pub struct ObjectRequest {
    pub bucket: String,
    pub key: String,
}

impl View for ObjectRequest {
    type V = (Seq<char>, Seq<char>);

    open spec fn view(&self) -> (Seq<char>, Seq<char>) {
        (self.bucket@, self.key@)
    }
}

/// What is to be done outside next.
pub enum DeliveryAction {
    /// Ask the store for the headers of this object.
    Head(ObjectRequest),
    /// Ask the store for this object.
    Get(ObjectRequest),
    /// Ask the store for this photo and read it whole; it is wanted no
    /// larger than `width` by `height`.
    GetPhoto { object: ObjectRequest, width: u32, height: u32 },
    /// Answer the request.
    Respond(Response),
}

/// A `DeliveryAction` as plain values.
pub enum DeliveryActionView {
    Head((Seq<char>, Seq<char>)),
    Get((Seq<char>, Seq<char>)),
    GetPhoto { object: (Seq<char>, Seq<char>), width: u32, height: u32 },
    Respond(ResponseView),
}

impl View for DeliveryAction {
    type V = DeliveryActionView;

    open spec fn view(&self) -> DeliveryActionView {
        match self {
            DeliveryAction::Head(object) => DeliveryActionView::Head(object@),
            DeliveryAction::Get(object) => DeliveryActionView::Get(object@),
            DeliveryAction::GetPhoto { object, width, height } => DeliveryActionView::GetPhoto {
                object: object@,
                width: *width,
                height: *height,
            },
            DeliveryAction::Respond(response) => DeliveryActionView::Respond(response@),
        }
    }
}

/// What the object store says of an object's headers.
pub enum HeadAnswer {
    /// The object is there, with these headers.
    Found(ObjectHeaders),
    /// There is no such object.
    Missing,
    /// The store failed, as the text says.
    Failed(String),
}

/// What the object store says of an object.
pub enum GetAnswer {
    /// The object is there, with these headers, and with or without a body.
    Found { headers: ObjectHeaders, has_body: bool },
    /// There is no such object.
    Missing,
    /// The store failed, as the text says.
    Failed(String),
}

/// What the object store says of a photo that was read whole.
pub enum PhotoAnswer {
    /// The object is there, with these headers, and these bytes where it
    /// has a body.
    Found { headers: ObjectHeaders, data: Option<Vec<u8>> },
    /// There is no such object.
    Missing,
    /// The store failed or the body could not be read, as the text says.
    Failed(String),
}

/// What has happened since the last step of serving an object's headers.
pub enum HeadEvent {
    /// A request came in whose path names this category and this file.
    Request { media_type: Option<String>, filename: Option<String> },
    /// The store has answered.
    Answer(HeadAnswer),
}

/// What has happened since the last step of serving an object.
pub enum GetEvent {
    /// A request came in whose path names this category and this file.
    Request { media_type: Option<String>, filename: Option<String> },
    /// The store has answered.
    Answer(GetAnswer),
}

/// What has happened since the last step of serving a scaled photo.
pub enum PhotoEvent {
    /// A request came in whose path names this size and this file.
    Request { width: Option<String>, height: Option<String>, filename: Option<String> },
    /// The store has answered the request for a photo wanted no larger than
    /// `width` by `height`.
    Answer { max_width: u32, max_height: u32, answer: PhotoAnswer },
}

/// The response to a request whose path lacks a part or holds a number that
/// cannot be read.
pub open spec fn bad_uri() -> ResponseView {
    plain(Failure::MalformedRequest, "Bad URI"@)
}

/// The response to a request for an object that is not there.
pub open spec fn not_found() -> ResponseView {
    plain(Failure::NotFound, "Not found"@)
}

/// The response that serves an object with the stored headers `h` and the
/// body `body`.
pub open spec fn served(h: ObjectHeadersView, body: BodyView) -> ResponseView {
    ResponseView { status: OK, headers: response_headers_of(h), body }
}

/// The object with the key `key` in the site's bucket.
pub open spec fn object_of(site: SiteConfigView, key: Seq<char>) -> (Seq<char>, Seq<char>) {
    (site.s3_bucket, key)
}

/// The object that a path with the category `media_type` and the file
/// `filename` means; `None` where the path lacks either.
pub open spec fn requested_object(
    site: SiteConfigView,
    media_type: Option<Seq<char>>,
    filename: Option<Seq<char>>,
) -> Option<(Seq<char>, Seq<char>)> {
    match (media_type, filename) {
        (Some(t), Some(f)) => Some(object_of(site, object_key_of(t, f))),
        _ => None,
    }
}

fn find_object(site: &SiteConfig, media_type: &Option<String>, filename: &Option<String>) -> (r:
    Option<ObjectRequest>)
    ensures
        match r {
            Some(object) => requested_object(site@, text_of(*media_type), text_of(*filename))
                == Some(object@),
            None => requested_object(site@, text_of(*media_type), text_of(*filename)) is None,
        },
{
    match (media_type, filename) {
        (Some(t), Some(f)) => Some(
            ObjectRequest {
                bucket: String::from_str(site.s3_bucket()),
                key: object_key(t.as_str(), f.as_str()),
            },
        ),
        _ => None,
    }
}

fn respond(response: Response) -> (r: DeliveryAction)
    ensures
        r@ == DeliveryActionView::Respond(response@),
{
    DeliveryAction::Respond(response)
}

fn serve(stored: &ObjectHeaders, body: Body) -> (r: Response)
    ensures
        r@ == served(stored@, body@),
{
    Response { status: OK, headers: response_for(stored), body }
}

/// One step of serving an object's headers.
///
/// A request is turned into the question for the object's headers, or
/// refused with 400 where its path lacks the category or the file. The
/// store's answer is turned into the response: the headers without a body,
/// 404 where the object is missing, 500 where the store failed.
pub open spec fn head_step(site: SiteConfigView, event: HeadEvent) -> DeliveryActionView {
    match event {
        HeadEvent::Request { media_type, filename } => match requested_object(
            site,
            text_of(media_type),
            text_of(filename),
        ) {
            Some(object) => DeliveryActionView::Head(object),
            None => DeliveryActionView::Respond(bad_uri()),
        },
        HeadEvent::Answer(HeadAnswer::Found(h)) => DeliveryActionView::Respond(
            served(h@, BodyView::Empty),
        ),
        HeadEvent::Answer(HeadAnswer::Missing) => DeliveryActionView::Respond(not_found()),
        HeadEvent::Answer(HeadAnswer::Failed(reason)) => DeliveryActionView::Respond(
            plain(Failure::StorageError, reason@),
        ),
    }
}

/// Takes serving an object's headers one step further.
pub fn head_file(site: &SiteConfig, event: HeadEvent) -> (r: DeliveryAction)
    ensures
        r@ == head_step(site@, event),
{
    match event {
        HeadEvent::Request { media_type, filename } => match find_object(
            site,
            &media_type,
            &filename,
        ) {
            Some(object) => DeliveryAction::Head(object),
            None => respond(Response::plain(Failure::MalformedRequest, "Bad URI")),
        },
        HeadEvent::Answer(HeadAnswer::Found(h)) => respond(serve(&h, Body::Empty)),
        HeadEvent::Answer(HeadAnswer::Missing) => respond(
            Response::plain(Failure::NotFound, "Not found"),
        ),
        HeadEvent::Answer(HeadAnswer::Failed(reason)) => respond(
            Response::plain(Failure::StorageError, reason.as_str()),
        ),
    }
}

/// One step of serving an object.
///
/// A request is turned into the question for the object, or refused with
/// 400 where its path lacks the category or the file. The store's answer is
/// turned into the response: the headers with the stored body passed
/// through as it is, 404 where the object or its body is missing, 500 where
/// the store failed.
pub open spec fn get_step(site: SiteConfigView, event: GetEvent) -> DeliveryActionView {
    match event {
        GetEvent::Request { media_type, filename } => match requested_object(
            site,
            text_of(media_type),
            text_of(filename),
        ) {
            Some(object) => DeliveryActionView::Get(object),
            None => DeliveryActionView::Respond(bad_uri()),
        },
        GetEvent::Answer(GetAnswer::Found { headers, has_body }) => if has_body {
            DeliveryActionView::Respond(served(headers@, BodyView::Stored))
        } else {
            DeliveryActionView::Respond(not_found())
        },
        GetEvent::Answer(GetAnswer::Missing) => DeliveryActionView::Respond(not_found()),
        GetEvent::Answer(GetAnswer::Failed(reason)) => DeliveryActionView::Respond(
            plain(Failure::StorageError, reason@),
        ),
    }
}

/// Takes serving an object one step further.
pub fn serve_file(site: &SiteConfig, event: GetEvent) -> (r: DeliveryAction)
    ensures
        r@ == get_step(site@, event),
{
    match event {
        GetEvent::Request { media_type, filename } => match find_object(
            site,
            &media_type,
            &filename,
        ) {
            Some(object) => DeliveryAction::Get(object),
            None => respond(Response::plain(Failure::MalformedRequest, "Bad URI")),
        },
        GetEvent::Answer(GetAnswer::Found { headers, has_body }) => {
            if has_body {
                respond(serve(&headers, Body::Stored))
            } else {
                respond(Response::plain(Failure::NotFound, "Not found"))
            }
        },
        GetEvent::Answer(GetAnswer::Missing) => respond(
            Response::plain(Failure::NotFound, "Not found"),
        ),
        GetEvent::Answer(GetAnswer::Failed(reason)) => respond(
            Response::plain(Failure::StorageError, reason.as_str()),
        ),
    }
}

/// The photo that a path with the size `width` by `height` and the file
/// `filename` means: the object of that name among the photos, and the two
/// numbers. `None` where the path lacks a part or a number cannot be read.
pub open spec fn requested_photo(
    site: SiteConfigView,
    width: Option<Seq<char>>,
    height: Option<Seq<char>>,
    filename: Option<Seq<char>>,
) -> Option<((Seq<char>, Seq<char>), u32, u32)> {
    match (width, height, filename) {
        (Some(w), Some(h), Some(f)) => match (parsed_decimal(w), parsed_decimal(h)) {
            (Some(width), Some(height)) => Some(
                (object_of(site, object_key_of("photo"@, f)), width, height),
            ),
            _ => None,
        },
        _ => None,
    }
}

/// The stored headers `h` with `mime` as content type.
pub open spec fn with_content_type(h: ObjectHeadersView, mime: Seq<char>) -> ObjectHeadersView {
    ObjectHeadersView { content_type: Some(mime), ..h }
}

/// The response that serves a photo with the stored headers `h`, given what
/// scaling it gave: the scaled bytes under the stored headers, with the
/// media type of the photo's format as content type; or 500 with the error
/// in words.
pub open spec fn photo_response_of(
    h: ObjectHeadersView,
    outcome: Result<(Seq<char>, Seq<u8>), ScaleErrorView>,
) -> ResponseView {
    match outcome {
        Ok((mime, bytes)) => served(with_content_type(h, mime), BodyView::Bytes(bytes)),
        Err(e) => plain(Failure::ImageError, e.message()),
    }
}

/// The response that serves a photo with the stored headers `stored`, given
/// what scaling it gave.
pub fn photo_response(
    stored: ObjectHeaders,
    outcome: Result<(&'static str, Vec<u8>), ScaleError>,
) -> (r: Response)
    ensures
        r@ == photo_response_of(stored@, scaled_view(outcome)),
{
    match outcome {
        Ok((mime, bytes)) => {
            let adjusted = ObjectHeaders {
                cache_control: stored.cache_control,
                content_disposition: stored.content_disposition,
                content_encoding: stored.content_encoding,
                content_language: stored.content_language,
                content_type: Some(String::from_str(mime)),
                e_tag: stored.e_tag,
                last_modified: stored.last_modified,
            };
            serve(&adjusted, Body::Bytes(bytes))
        },
        Err(e) => Response::plain(Failure::ImageError, e.message()),
    }
}

/// One step of serving a scaled photo.
///
/// A request is turned into the question for the photo, or refused with 400
/// where its path lacks a part or a number in it cannot be read. The
/// store's answer is turned into the response: the photo scaled to the size
/// asked for, 404 where the object or its body is missing, 500 where the
/// store failed or the photo cannot be scaled.
pub open spec fn photo_step(site: SiteConfigView, event: PhotoEvent) -> DeliveryActionView {
    match event {
        PhotoEvent::Request { width, height, filename } => match requested_photo(
            site,
            text_of(width),
            text_of(height),
            text_of(filename),
        ) {
            Some((object, width, height)) => DeliveryActionView::GetPhoto {
                object,
                width,
                height,
            },
            None => DeliveryActionView::Respond(bad_uri()),
        },
        PhotoEvent::Answer { max_width, max_height, answer } => match answer {
            PhotoAnswer::Found { headers, data } => match data {
                Some(bytes) => DeliveryActionView::Respond(
                    photo_response_of(headers@, scaled(bytes@, max_width, max_height)),
                ),
                None => DeliveryActionView::Respond(not_found()),
            },
            PhotoAnswer::Missing => DeliveryActionView::Respond(not_found()),
            PhotoAnswer::Failed(reason) => DeliveryActionView::Respond(
                plain(Failure::StorageError, reason@),
            ),
        },
    }
}

fn find_photo(
    site: &SiteConfig,
    width: &Option<String>,
    height: &Option<String>,
    filename: &Option<String>,
) -> (r: Option<(ObjectRequest, u32, u32)>)
    ensures
        match r {
            Some((object, w, h)) => requested_photo(
                site@,
                text_of(*width),
                text_of(*height),
                text_of(*filename),
            ) == Some((object@, w, h)),
            None => requested_photo(site@, text_of(*width), text_of(*height), text_of(*filename))
                is None,
        },
{
    match (width, height, filename) {
        (Some(w), Some(h), Some(f)) => match (
            parse_decimal(w.as_str()),
            parse_decimal(h.as_str()),
        ) {
            (Some(width), Some(height)) => Some(
                (
                    ObjectRequest {
                        bucket: String::from_str(site.s3_bucket()),
                        key: object_key("photo", f.as_str()),
                    },
                    width,
                    height,
                ),
            ),
            _ => None,
        },
        _ => None,
    }
}

/// Takes serving a scaled photo one step further.
pub fn serve_photo(site: &SiteConfig, event: PhotoEvent) -> (r: DeliveryAction)
    ensures
        r@ == photo_step(site@, event),
{
    match event {
        PhotoEvent::Request { width, height, filename } => match find_photo(
            site,
            &width,
            &height,
            &filename,
        ) {
            Some((object, width, height)) => DeliveryAction::GetPhoto { object, width, height },
            None => respond(Response::plain(Failure::MalformedRequest, "Bad URI")),
        },
        PhotoEvent::Answer { max_width, max_height, answer } => match answer {
            PhotoAnswer::Found { headers, data } => match data {
                Some(bytes) => {
                    let outcome = scale_image(bytes.as_slice(), max_width, max_height);
                    respond(photo_response(headers, outcome))
                },
                None => respond(Response::plain(Failure::NotFound, "Not found")),
            },
            PhotoAnswer::Missing => respond(Response::plain(Failure::NotFound, "Not found")),
            PhotoAnswer::Failed(reason) => respond(
                Response::plain(Failure::StorageError, reason.as_str()),
            ),
        },
    }
}

} // verus!
