use media_endpoint::classification::{
    classify, classify_top_level, extension, object_key, object_name, Category, Classification,
};

fn parts(c: &Classification) -> (Category, char, Option<&str>) {
    (c.category, c.separator, c.suffix.as_deref())
}

#[test]
fn classify_jpeg_with_filename() {
    let c = classify("image/jpeg", Some("a.jpg"));
    assert_eq!(parts(&c), (Category::Photo, '.', Some("jpg")));
}

#[test]
fn classify_pdf_keeps_whole_filename() {
    let c = classify("application/pdf", Some("a.pdf"));
    assert_eq!(parts(&c), (Category::File, '/', Some("a.pdf")));
}

#[test]
fn classify_jpeg_without_filename() {
    let c = classify("image/jpeg", None);
    assert_eq!(parts(&c), (Category::Photo, '.', None));
}

#[test]
fn classify_audio_and_video() {
    assert_eq!(
        parts(&classify("audio/mpeg", Some("song.mp3"))),
        (Category::Audio, '.', Some("mp3"))
    );
    assert_eq!(
        parts(&classify("video/mp4", Some("clip.final.mp4"))),
        (Category::Video, '.', Some("mp4"))
    );
}

#[test]
fn classify_anything_else_as_file() {
    assert_eq!(parts(&classify("text/plain", None)), (Category::File, '/', None));
    assert_eq!(
        parts(&classify("application/octet-stream", Some("dir.d/blob"))),
        (Category::File, '/', Some("dir.d/blob"))
    );
}

#[test]
fn classify_reads_the_content_type_as_a_media_type() {
    assert_eq!(classify("IMAGE/PNG", Some("a.png")).category, Category::Photo);
    assert_eq!(classify("image/svg+xml; charset=utf-8", None).category, Category::Photo);
    assert_eq!(classify("Video/Ogg", None).category, Category::Video);
}

#[test]
fn classify_unreadable_content_type_as_file() {
    assert_eq!(parts(&classify("image", Some("a.jpg"))), (Category::File, '/', Some("a.jpg")));
    assert_eq!(classify("", None).category, Category::File);
    assert_eq!(classify("/jpeg", None).category, Category::File);
    assert_eq!(classify("im age/jpeg", None).category, Category::File);
}

#[test]
fn classify_top_level_goes_by_the_exact_name() {
    assert_eq!(classify_top_level(Some("image"), None).category, Category::Photo);
    assert_eq!(classify_top_level(Some("audio"), None).category, Category::Audio);
    assert_eq!(classify_top_level(Some("video"), None).category, Category::Video);
    assert_eq!(classify_top_level(Some("images"), None).category, Category::File);
    assert_eq!(classify_top_level(Some("Image"), None).category, Category::File);
    assert_eq!(classify_top_level(None, None).category, Category::File);
}

#[test]
fn extension_is_what_follows_the_last_dot() {
    assert_eq!(extension("a.jpg"), Some("jpg"));
    assert_eq!(extension("archive.tar.gz"), Some("gz"));
    assert_eq!(extension(".hidden"), Some("hidden"));
    assert_eq!(extension("trailing."), Some(""));
    assert_eq!(extension("."), Some(""));
    assert_eq!(extension("caf\u{e9}.\u{e9}t\u{e9}"), Some("\u{e9}t\u{e9}"));
}

#[test]
fn extension_of_a_name_without_dot_is_absent() {
    assert_eq!(extension("README"), None);
    assert_eq!(extension(""), None);
}

#[test]
fn photo_without_extension_has_no_suffix() {
    let c = classify("image/png", Some("README"));
    assert_eq!(parts(&c), (Category::Photo, '.', None));
    assert_eq!(object_name("ID-1234567", &c), "ID-1234567");
}

#[test]
fn category_names() {
    assert_eq!(Category::Photo.as_str(), "photo");
    assert_eq!(Category::Audio.as_str(), "audio");
    assert_eq!(Category::Video.as_str(), "video");
    assert_eq!(Category::File.as_str(), "file");
}

#[test]
fn object_name_joins_the_suffix() {
    assert_eq!(object_name("ID-1234567", &classify("image/jpeg", Some("a.jpg"))), "ID-1234567.jpg");
    assert_eq!(object_name("ID-1234567", &classify("image/jpeg", None)), "ID-1234567");
    assert_eq!(
        object_name("ID-1234567", &classify("application/pdf", Some("a.pdf"))),
        "ID-1234567/a.pdf"
    );
    assert_eq!(object_name("ID-1234567", &classify("image/jpeg", Some("a."))), "ID-1234567.");
}

#[test]
fn object_key_puts_the_category_first() {
    assert_eq!(object_key("photo", "ID-1234567.jpg"), "photo/ID-1234567.jpg");
    assert_eq!(object_key("file", "ID-1234567/a.pdf"), "file/ID-1234567/a.pdf");
    assert_eq!(object_key("", ""), "/");
}
