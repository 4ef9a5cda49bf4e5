//! How an upload is classified by its declared content type, and how the
//! name of its object follows from that.

use vstd::prelude::*;
use vstd::string::{StrSliceExecFns, StringExecFns};

verus! {

/// The coarse kind of a stored object. It is the first segment of the
/// object's key.
#[derive(Clone, Copy, Debug, PartialEq, Eq, Structural)]
pub enum Category {
    Photo,
    Audio,
    Video,
    File,
}

impl Category {
    /// The category's name, as it stands in keys and URLs.
    pub open spec fn text(self) -> Seq<char> {
        match self {
            Category::Photo => "photo"@,
            Category::Audio => "audio"@,
            Category::Video => "video"@,
            Category::File => "file"@,
        }
    }

    /// The category's name, as it stands in keys and URLs.
    pub fn as_str(self) -> (r: &'static str)
        ensures
            r@ == self.text(),
    {
        match self {
            Category::Photo => "photo",
            Category::Audio => "audio",
            Category::Video => "video",
            Category::File => "file",
        }
    }
}

/// What classifying an upload gives: its category, and what is joined to the
/// identifier to name the object.
pub struct Classification {
    pub category: Category,
    pub separator: char,
    pub suffix: Option<String>,
}

/// A `Classification` with its suffix as plain text.
pub struct ClassificationView {
    pub category: Category,
    pub separator: char,
    pub suffix: Option<Seq<char>>,
}

impl View for Classification {
    type V = ClassificationView;

    open spec fn view(&self) -> ClassificationView {
        ClassificationView {
            category: self.category,
            separator: self.separator,
            suffix: match self.suffix {
                Some(s) => Some(s@),
                None => None,
            },
        }
    }
}

/// The top-level type that the `mime` crate reads out of a content type, in
/// lower case; `None` where the crate does not accept the text as a media
/// type.
pub uninterp spec fn top_level_type(content_type: Seq<char>) -> Option<Seq<char>>;

/// `Mime::from_str` and `Mime::type_` of the `mime` crate: parses a content
/// type and hands out its top-level type.
#[verifier::external_body]
fn parse_top_level(content_type: &str) -> (r: Option<String>)
    ensures
        match r {
            Some(t) => top_level_type(content_type@) == Some(t@),
            None => top_level_type(content_type@) is None,
        },
{
    match content_type.parse::<mime::Mime>() {
        Ok(m) => Some(m.type_().as_str().to_owned()),
        Err(_) => None,
    }
}

/// The category for a top-level type: photo for images, audio and video for
/// their own, file for everything else and for no type at all.
pub open spec fn category_of(top_level: Option<Seq<char>>) -> Category {
    if top_level == Some("image"@) {
        Category::Photo
    } else if top_level == Some("audio"@) {
        Category::Audio
    } else if top_level == Some("video"@) {
        Category::Video
    } else {
        Category::File
    }
}

/// Where the last `.` of `s` stands, and -1 where `s` has none.
pub open spec fn last_dot(s: Seq<char>) -> int
    decreases s.len(),
{
    if s.len() == 0 {
        -1
    } else if s.last() == '.' {
        s.len() - 1
    } else {
        last_dot(s.drop_last())
    }
}

/// The extension of a file name: what follows its last `.`. A name without
/// a `.` has none; a name that ends in `.` has the empty one.
pub open spec fn extension_of(filename: Seq<char>) -> Option<Seq<char>> {
    if last_dot(filename) < 0 {
        None
    } else {
        Some(filename.skip(last_dot(filename) + 1))
    }
}

/// The classification of an upload with the given top-level type and file
/// name. Photos, audio and video keep the extension of the file name, joined
/// with `.`; files keep the whole name, joined with `/`.
pub open spec fn classification_of(
    top_level: Option<Seq<char>>,
    filename: Option<Seq<char>>,
) -> ClassificationView {
    let category = category_of(top_level);
    if category == Category::File {
        ClassificationView { category, separator: '/', suffix: filename }
    } else {
        ClassificationView {
            category,
            separator: '.',
            suffix: match filename {
                Some(f) => extension_of(f),
                None => None,
            },
        }
    }
}

/// The name of an object under its category: the identifier, and the suffix
/// joined to it where there is one.
pub open spec fn object_name_of(id: Seq<char>, c: ClassificationView) -> Seq<char> {
    match c.suffix {
        Some(s) => id + seq![c.separator] + s,
        None => id,
    }
}

/// The key of the object called `name` in the category called `category`.
pub open spec fn object_key_of(category: Seq<char>, name: Seq<char>) -> Seq<char> {
    category + seq!['/'] + name
}

/// The position of a `.` in `s` lies within `s`, a `.` stands there, and
/// none stands after it.
pub proof fn lemma_last_dot(s: Seq<char>)
    ensures
        -1 <= last_dot(s) < s.len(),
        last_dot(s) >= 0 ==> s[last_dot(s)] == '.',
        forall|i: int| last_dot(s) < i < s.len() ==> s[i] != '.',
    decreases s.len(),
{
    if s.len() > 0 && s.last() != '.' {
        lemma_last_dot(s.drop_last());
        assert forall|i: int| last_dot(s) < i < s.len() implies s[i] != '.' by {
            if i < s.len() - 1 {
                assert(s.drop_last()[i] == s[i]);
            }
        }
    }
}

/// The extension of a file name, where it has one.
pub fn extension(filename: &str) -> (r: Option<&str>)
    ensures
        match r {
            Some(e) => extension_of(filename@) == Some(e@),
            None => extension_of(filename@) is None,
        },
{
    let n = filename.unicode_len();
    let mut dot: Option<usize> = None;
    let mut i: usize = 0;
    for c in it: filename.chars()
        invariant
            it.seq() == filename@,
            n == filename@.len(),
            i == it.index(),
            match dot {
                Some(k) => k == last_dot(filename@.take(it.index())),
                None => last_dot(filename@.take(it.index())) == -1,
            },
    {
        proof {
            lemma_last_dot(filename@.take(it.index()));
            assert(filename@.take(it.index() + 1).drop_last() == filename@.take(it.index()));
        }
        if c == '.' {
            dot = Some(i);
        }
        i = i + 1;
    }
    assert(filename@.take(filename@.len() as int) == filename@);
    match dot {
        Some(k) => {
            proof {
                lemma_last_dot(filename@);
            }
            assert(filename@.skip(k + 1) == filename@.subrange(k + 1, n as int));
            Some(filename.substring_char(k + 1, n))
        },
        None => None,
    }
}

/// Classifies an upload whose content type has the given top-level type.
pub fn classify_top_level(top_level: Option<&str>, filename: Option<&str>) -> (r: Classification)
    ensures
        r@ == classification_of(
            match top_level {
                Some(t) => Some(t@),
                None => None,
            },
            match filename {
                Some(f) => Some(f@),
                None => None,
            },
        ),
{
    let category = match top_level {
        Some(t) => {
            if *t == *"image" {
                Category::Photo
            } else if *t == *"audio" {
                Category::Audio
            } else if *t == *"video" {
                Category::Video
            } else {
                Category::File
            }
        },
        None => Category::File,
    };
    match category {
        Category::File => Classification {
            category,
            separator: '/',
            suffix: match filename {
                Some(f) => Some(String::from_str(f)),
                None => None,
            },
        },
        _ => Classification {
            category,
            separator: '.',
            suffix: match filename {
                Some(f) => match extension(f) {
                    Some(e) => Some(String::from_str(e)),
                    None => None,
                },
                None => None,
            },
        },
    }
}

/// Classifies an upload by its declared content type and, where it has one,
/// its file name.
pub fn classify(content_type: &str, filename: Option<&str>) -> (r: Classification)
    ensures
        r@ == classification_of(
            top_level_type(content_type@),
            match filename {
                Some(f) => Some(f@),
                None => None,
            },
        ),
{
    let top = parse_top_level(content_type);
    match &top {
        Some(t) => classify_top_level(Some(t.as_str()), filename),
        None => classify_top_level(None, filename),
    }
}

/// The name of an object under its category.
pub fn object_name(id: &str, classification: &Classification) -> (r: String)
    ensures
        r@ == object_name_of(id@, classification@),
{
    let mut out = String::from_str(id);
    match &classification.suffix {
        Some(s) => {
            out.push(classification.separator);
            out.append(s.as_str());
        },
        None => {},
    }
    out
}

/// The key of the object called `name` in the category called `category`.
pub fn object_key(category: &str, name: &str) -> (r: String)
    ensures
        r@ == object_key_of(category@, name@),
{
    let mut out = String::from_str(category);
    out.push('/');
    out.append(name);
    out
}

} // verus!
