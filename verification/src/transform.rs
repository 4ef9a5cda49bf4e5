//! Scaling a stored photo down on request: the format is found from the
//! bytes, the picture is decoded and turned upright, made smaller where the
//! request asks for less than it has, and encoded again in its own format.

use vstd::prelude::*;

verus! {

/// A decoded picture, as the `image` crate holds it.
#[verifier::external_type_specification]
#[verifier::external_body]
pub struct ExDynamicImage(image::DynamicImage);

/// A format of encoded pictures, as the `image` crate names it.
#[verifier::external_type_specification]
#[verifier::external_body]
pub struct ExImageFormat(image::ImageFormat);

/// What the `image` crate reports when it cannot read or write a picture.
#[verifier::external_type_specification]
#[verifier::external_body]
pub struct ExImageError(image::ImageError);

/// The formats that have a media type of their own here; `Other` stands for
/// every other format that the `image` crate knows.
#[derive(Clone, Copy, Debug, PartialEq, Eq, Structural)]
pub enum ImageKind {
    Png,
    Jpeg,
    Gif,
    Tiff,
    Ico,
    WebP,
    Bmp,
    Pnm,
    Tga,
    Dds,
    Hdr,
    Farbfeld,
    Other,
}

/// Why a picture could not be scaled.
#[derive(Debug)]
pub enum ScaleError {
    /// The bytes begin like no known format; the text says so.
    UnsupportedFormat(String),
    /// The picture could not be decoded; the text says why.
    Decoding(String),
    /// The picture could not be encoded; the text says why.
    Encoding(String),
}

/// A `ScaleError` with its text as plain characters.
pub enum ScaleErrorView {
    UnsupportedFormat(Seq<char>),
    Decoding(Seq<char>),
    Encoding(Seq<char>),
}

impl View for ScaleError {
    type V = ScaleErrorView;

    open spec fn view(&self) -> ScaleErrorView {
        match self {
            ScaleError::UnsupportedFormat(reason) => ScaleErrorView::UnsupportedFormat(reason@),
            ScaleError::Decoding(reason) => ScaleErrorView::Decoding(reason@),
            ScaleError::Encoding(reason) => ScaleErrorView::Encoding(reason@),
        }
    }
}

impl ScaleErrorView {
    /// The error in words.
    pub open spec fn message(self) -> Seq<char> {
        match self {
            ScaleErrorView::UnsupportedFormat(reason) => reason,
            ScaleErrorView::Decoding(reason) => reason,
            ScaleErrorView::Encoding(reason) => reason,
        }
    }
}

impl ScaleError {
    /// The error in words.
    pub fn message(&self) -> (r: &str)
        ensures
            r@ == self@.message(),
    {
        match self {
            ScaleError::UnsupportedFormat(reason) => reason.as_str(),
            ScaleError::Decoding(reason) => reason.as_str(),
            ScaleError::Encoding(reason) => reason.as_str(),
        }
    }
}

/// The orientation code that says that a picture is stored upright. The
/// codes are those of Exif, 1 to 8.
pub const UPRIGHT: u8 = 1;

/// The format that the `image` crate finds from the first bytes of `data`,
/// or its error where they begin like no format it knows.
pub uninterp spec fn sniffed_format(data: Seq<u8>) -> Result<
    image::ImageFormat,
    image::ImageError,
>;

/// Which of the kinds named here the format `format` is.
pub uninterp spec fn format_kind(format: image::ImageFormat) -> ImageKind;

/// The picture that the `image` crate decodes from `data` read as `format`,
/// or its error where it cannot.
pub uninterp spec fn decoded_image(data: Seq<u8>, format: image::ImageFormat) -> Result<
    image::DynamicImage,
    image::ImageError,
>;

/// The orientation code that the decoder of `format` finds in the metadata
/// of `data`; `None` where it fails to read the metadata.
pub uninterp spec fn stored_orientation(data: Seq<u8>, format: image::ImageFormat) -> Option<u8>;

/// The picture `picture` turned as the orientation code `code` asks.
pub uninterp spec fn oriented(picture: image::DynamicImage, code: u8) -> image::DynamicImage;

/// The width and height of `picture`.
pub uninterp spec fn picture_size(picture: image::DynamicImage) -> (u32, u32);

/// The picture `picture` made to fit into `width` by `height` with the
/// Catmull-Rom filter.
pub uninterp spec fn resampled(
    picture: image::DynamicImage,
    width: u32,
    height: u32,
) -> image::DynamicImage;

/// The bytes that encode `picture` in `format`, or the error of the `image`
/// crate where it cannot encode it so.
pub uninterp spec fn encoded_image(
    picture: image::DynamicImage,
    format: image::ImageFormat,
) -> Result<Seq<u8>, image::ImageError>;

/// What the `image` crate's error says in words.
pub uninterp spec fn error_words(error: image::ImageError) -> Seq<char>;

/// `image::guess_format`: the format that the first bytes of `data` show.
#[verifier::external_body]
fn guess_format(data: &[u8]) -> (r: Result<image::ImageFormat, image::ImageError>)
    ensures
        r == sniffed_format(data@),
{
    image::guess_format(data)
}

/// Tells the variants of `image::ImageFormat` apart.
#[verifier::external_body]
fn kind_of(format: &image::ImageFormat) -> (r: ImageKind)
    ensures
        r == format_kind(*format),
{
    match format {
        image::ImageFormat::Png => ImageKind::Png,
        image::ImageFormat::Jpeg => ImageKind::Jpeg,
        image::ImageFormat::Gif => ImageKind::Gif,
        image::ImageFormat::Tiff => ImageKind::Tiff,
        image::ImageFormat::Ico => ImageKind::Ico,
        image::ImageFormat::WebP => ImageKind::WebP,
        image::ImageFormat::Bmp => ImageKind::Bmp,
        image::ImageFormat::Pnm => ImageKind::Pnm,
        image::ImageFormat::Tga => ImageKind::Tga,
        image::ImageFormat::Dds => ImageKind::Dds,
        image::ImageFormat::Hdr => ImageKind::Hdr,
        image::ImageFormat::Farbfeld => ImageKind::Farbfeld,
        _ => ImageKind::Other,
    }
}

/// `ImageReader::with_format` and `into_decoder`, `ImageDecoder::orientation`
/// and `DynamicImage::from_decoder`, in this order on one decoder: the
/// decoded picture, and the Exif code of the orientation found in its
/// metadata, which is absent where reading the metadata failed.
#[verifier::external_body]
fn decode(data: &[u8], format: &image::ImageFormat) -> (r: Result<
    (image::DynamicImage, Option<u8>),
    image::ImageError,
>)
    ensures
        match r {
            Ok((picture, code)) => {
                &&& decoded_image(data@, *format) == Ok::<_, image::ImageError>(picture)
                &&& code == stored_orientation(data@, *format)
                &&& code matches Some(c) ==> 1 <= c <= 8
            },
            Err(e) => decoded_image(data@, *format) == Err::<image::DynamicImage, _>(e),
        },
{
    let reader = image::ImageReader::with_format(std::io::Cursor::new(data), *format);
    let mut decoder = reader.into_decoder()?;
    let code = match image::ImageDecoder::orientation(&mut decoder) {
        Ok(orientation) => Some(orientation.to_exif()),
        Err(_) => None,
    };
    Ok((image::DynamicImage::from_decoder(decoder)?, code))
}

/// `Orientation::from_exif` and `DynamicImage::apply_orientation`: turns the
/// picture as the Exif code asks.
#[verifier::external_body]
fn apply_orientation(picture: &mut image::DynamicImage, code: u8)
    requires
        1 <= code <= 8,
    ensures
        *final(picture) == oriented(*old(picture), code),
{
    if let Some(orientation) = image::metadata::Orientation::from_exif(code) {
        picture.apply_orientation(orientation);
    }
}

/// `DynamicImage::width` and `DynamicImage::height`.
#[verifier::external_body]
fn dimensions(picture: &image::DynamicImage) -> (r: (u32, u32))
    ensures
        r == picture_size(*picture),
{
    (picture.width(), picture.height())
}

/// `DynamicImage::resize` with `FilterType::CatmullRom`: the picture made
/// to fit into `width` by `height`.
#[verifier::external_body]
fn resize(picture: &image::DynamicImage, width: u32, height: u32) -> (r: image::DynamicImage)
    ensures
        r == resampled(*picture, width, height),
{
    picture.resize(width, height, image::imageops::FilterType::CatmullRom)
}

/// `DynamicImage::write_to` into memory: the picture encoded in `format`.
#[verifier::external_body]
fn encode(picture: &image::DynamicImage, format: &image::ImageFormat) -> (r: Result<
    Vec<u8>,
    image::ImageError,
>)
    ensures
        match r {
            Ok(bytes) => encoded_image(*picture, *format) == Ok::<_, image::ImageError>(bytes@),
            Err(e) => encoded_image(*picture, *format) == Err::<Seq<u8>, _>(e),
        },
{
    let mut bytes = Vec::new();
    picture.write_to(&mut std::io::Cursor::new(&mut bytes), *format)?;
    Ok(bytes)
}

/// `Display` of the `image` crate's error: the error in words.
#[verifier::external_body]
fn error_text(error: &image::ImageError) -> (r: String)
    ensures
        r@ == error_words(*error),
{
    error.to_string()
}

/// The media type of a picture of the kind `kind`; empty for a kind that
/// has none here.
pub open spec fn mime_text(kind: ImageKind) -> Seq<char> {
    match kind {
        ImageKind::Png => "image/png"@,
        ImageKind::Jpeg => "image/jpeg"@,
        ImageKind::Gif => "image/gif"@,
        ImageKind::Tiff => "image/tiff"@,
        ImageKind::Ico => "image/vnd.microsoft.icon"@,
        ImageKind::WebP => "image/webp"@,
        ImageKind::Bmp => "image/bmp"@,
        ImageKind::Pnm => "image/x-portable-anymap"@,
        ImageKind::Tga => "image/x-tga"@,
        ImageKind::Dds => "image/vnd.ms-dds"@,
        ImageKind::Hdr => "image/vnd.radiance"@,
        ImageKind::Farbfeld => "image/farbfeld"@,
        ImageKind::Other => ""@,
    }
}

/// The media type of a picture of the kind `kind`.
pub fn mime_for_image(kind: ImageKind) -> (r: &'static str)
    ensures
        r@ == mime_text(kind),
{
    match kind {
        ImageKind::Png => "image/png",
        ImageKind::Jpeg => "image/jpeg",
        ImageKind::Gif => "image/gif",
        ImageKind::Tiff => "image/tiff",
        ImageKind::Ico => "image/vnd.microsoft.icon",
        ImageKind::WebP => "image/webp",
        ImageKind::Bmp => "image/bmp",
        ImageKind::Pnm => "image/x-portable-anymap",
        ImageKind::Tga => "image/x-tga",
        ImageKind::Dds => "image/vnd.ms-dds",
        ImageKind::Hdr => "image/vnd.radiance",
        ImageKind::Farbfeld => "image/farbfeld",
        ImageKind::Other => "",
    }
}

/// Whether a picture of `natural_width` by `natural_height` is made
/// smaller for a request of `width` by `height`: only where the request
/// asks for less in both directions. A picture is never made larger.
pub open spec fn shrinks(natural_width: u32, natural_height: u32, width: u32, height: u32) -> bool {
    width < natural_width && height < natural_height
}

/// The size asked of the resampler for a picture of `natural_width` by
/// `natural_height` and a request of `width` by `height`.
///
/// Where the picture is made smaller, the larger of the two requested
/// numbers is kept and the other follows from the picture's proportions,
/// rounded down: a request that is wider than high keeps its width, any
/// other keeps its height. Where it is not, the size is the picture's own.
pub open spec fn target_size_of(
    natural_width: u32,
    natural_height: u32,
    width: u32,
    height: u32,
) -> (u32, u32) {
    if shrinks(natural_width, natural_height, width, height) {
        if width > height {
            (width, ((width * natural_height) / (natural_width as int)) as u32)
        } else {
            (((height * natural_width) / (natural_height as int)) as u32, height)
        }
    } else {
        (natural_width, natural_height)
    }
}

/// Scaling `b` by `a / c`, rounded down, gives less than `b` where `a` is
/// less than `c`.
proof fn lemma_scaled_down(a: int, b: int, c: int)
    by (nonlinear_arith)
    requires
        0 <= a < c,
        0 < b,
    ensures
        0 <= (a * b) / c < b,
        c * ((a * b) / c) <= a * b < c * ((a * b) / c) + c,
{
}

/// The product of two 32-bit numbers fits in 64 bits.
proof fn lemma_product_fits(a: u32, b: u32)
    by (nonlinear_arith)
    ensures
        a * b <= 0xffff_fffe_0000_0001,
{
}

/// The size asked of the resampler.
pub fn target_size(natural_width: u32, natural_height: u32, width: u32, height: u32) -> (r: (
    u32,
    u32,
))
    ensures
        r == target_size_of(natural_width, natural_height, width, height),
{
    if width < natural_width && height < natural_height {
        if width > height {
            proof {
                lemma_product_fits(width, natural_height);
                lemma_scaled_down(width as int, natural_height as int, natural_width as int);
            }
            let scaled: u64 = (width as u64) * (natural_height as u64) / (natural_width as u64);
            (width, scaled as u32)
        } else {
            proof {
                lemma_product_fits(height, natural_width);
                lemma_scaled_down(height as int, natural_width as int, natural_height as int);
            }
            let scaled: u64 = (height as u64) * (natural_width as u64) / (natural_height as u64);
            (scaled as u32, height)
        }
    } else {
        (natural_width, natural_height)
    }
}

/// The size asked of the resampler is never larger than the picture, and a
/// request that does not ask for less in both directions leaves the
/// picture's size as it is.
pub proof fn lemma_never_upscaled(natural_width: u32, natural_height: u32, width: u32, height: u32)
    ensures
        target_size_of(natural_width, natural_height, width, height).0 <= natural_width,
        target_size_of(natural_width, natural_height, width, height).1 <= natural_height,
        !shrinks(natural_width, natural_height, width, height) ==> target_size_of(
            natural_width,
            natural_height,
            width,
            height,
        ) == (natural_width, natural_height),
{
    if shrinks(natural_width, natural_height, width, height) {
        if width > height {
            lemma_scaled_down(width as int, natural_height as int, natural_width as int);
        } else {
            lemma_scaled_down(height as int, natural_width as int, natural_height as int);
        }
    }
}

/// Where a picture is made smaller, it keeps its proportions as far as whole
/// numbers allow: the side that is kept is the requested one, and the other
/// side is the largest whole number that does not make the picture wider,
/// or higher, than it was in proportion.
pub proof fn lemma_proportions_kept(
    natural_width: u32,
    natural_height: u32,
    width: u32,
    height: u32,
)
    requires
        shrinks(natural_width, natural_height, width, height),
    ensures
        ({
            let t = target_size_of(natural_width, natural_height, width, height);
            if width > height {
                &&& t.0 == width
                &&& t.1 * natural_width <= t.0 * natural_height < (t.1 + 1) * natural_width
            } else {
                &&& t.1 == height
                &&& t.0 * natural_height <= t.1 * natural_width < (t.0 + 1) * natural_height
            }
        }),
{
    let t = target_size_of(natural_width, natural_height, width, height);
    if width > height {
        lemma_scaled_down(width as int, natural_height as int, natural_width as int);
        assert(t.1 * natural_width == natural_width * t.1) by (nonlinear_arith);
        assert((t.1 + 1) * natural_width == natural_width * t.1 + natural_width)
            by (nonlinear_arith);
    } else {
        lemma_scaled_down(height as int, natural_width as int, natural_height as int);
        assert(t.0 * natural_height == natural_height * t.0) by (nonlinear_arith);
        assert((t.0 + 1) * natural_height == natural_height * t.0 + natural_height)
            by (nonlinear_arith);
    }
}

/// Whether the side that follows from the proportions stays within the
/// request: the picture is in proportion no higher than the request where
/// the width is kept, and no wider where the height is kept.
pub open spec fn request_holds_proportions(
    natural_width: u32,
    natural_height: u32,
    width: u32,
    height: u32,
) -> bool {
    if width > height {
        width * natural_height < (height + 1) * natural_width
    } else {
        height * natural_width < (width + 1) * natural_height
    }
}

/// Where a picture is made smaller, the size asked of the resampler lies
/// within the request exactly where the side that follows from the
/// proportions does.
pub proof fn lemma_within_request(natural_width: u32, natural_height: u32, width: u32, height: u32)
    requires
        shrinks(natural_width, natural_height, width, height),
    ensures
        ({
            let t = target_size_of(natural_width, natural_height, width, height);
            (t.0 <= width && t.1 <= height) <==> request_holds_proportions(
                natural_width,
                natural_height,
                width,
                height,
            )
        }),
{
    let t = target_size_of(natural_width, natural_height, width, height);
    lemma_proportions_kept(natural_width, natural_height, width, height);
    if width > height {
        let q = t.1 as int;
        let w = natural_width as int;
        let h = height as int;
        let p = width * natural_height;
        assert(q <= h <==> p < (h + 1) * w) by (nonlinear_arith)
            requires
                q * w <= p < (q + 1) * w,
                w > 0,
                q >= 0,
                h >= 0,
        ;
    } else {
        let q = t.0 as int;
        let w = natural_height as int;
        let h = width as int;
        let p = height * natural_width;
        assert(q <= h <==> p < (h + 1) * w) by (nonlinear_arith)
            requires
                q * w <= p < (q + 1) * w,
                w > 0,
                q >= 0,
                h >= 0,
        ;
    }
}

/// The orientation code to go by: the one found, and upright where none
/// could be read.
pub open spec fn orientation_or_upright(found: Option<u8>) -> u8 {
    match found {
        Some(code) => code,
        None => UPRIGHT,
    }
}

/// The picture that is encoded for a request of `width` by `height`:
/// `upright` itself where it is not made smaller, and otherwise what the
/// resampler makes of it for the target size.
pub open spec fn fitted(
    upright: image::DynamicImage,
    width: u32,
    height: u32,
) -> image::DynamicImage {
    let size = picture_size(upright);
    if shrinks(size.0, size.1, width, height) {
        let target = target_size_of(size.0, size.1, width, height);
        resampled(upright, target.0, target.1)
    } else {
        upright
    }
}

/// What scaling `data` for a request of `width` by `height` gives: the
/// media type of the format found and the bytes of the picture, decoded,
/// turned upright, fitted and encoded in that same format; or the step
/// that failed, with the words of the `image` crate's error.
pub open spec fn scaled(data: Seq<u8>, width: u32, height: u32) -> Result<
    (Seq<char>, Seq<u8>),
    ScaleErrorView,
> {
    match sniffed_format(data) {
        Err(e) => Err(ScaleErrorView::UnsupportedFormat(error_words(e))),
        Ok(format) => match decoded_image(data, format) {
            Err(e) => Err(ScaleErrorView::Decoding(error_words(e))),
            Ok(raw) => {
                let upright = oriented(
                    raw,
                    orientation_or_upright(stored_orientation(data, format)),
                );
                match encoded_image(fitted(upright, width, height), format) {
                    Err(e) => Err(ScaleErrorView::Encoding(error_words(e))),
                    Ok(bytes) => Ok((mime_text(format_kind(format)), bytes)),
                }
            },
        },
    }
}

/// `r` as plain values.
pub open spec fn scaled_view(r: Result<(&'static str, Vec<u8>), ScaleError>) -> Result<
    (Seq<char>, Seq<u8>),
    ScaleErrorView,
> {
    match r {
        Ok((mime, bytes)) => Ok((mime@, bytes@)),
        Err(e) => Err(e@),
    }
}

/// Scales the encoded picture `data` down to fit a request of `width` by
/// `height`, and hands it back in its own format with that format's media
/// type. A picture that is not larger than the request in both directions
/// keeps its size.
pub fn scale_image(data: &[u8], width: u32, height: u32) -> (r: Result<
    (&'static str, Vec<u8>),
    ScaleError,
>)
    ensures
        scaled_view(r) == scaled(data@, width, height),
{
    let format = match guess_format(data) {
        Ok(format) => format,
        Err(e) => {
            return Err(ScaleError::UnsupportedFormat(error_text(&e)));
        },
    };
    let (mut picture, found) = match decode(data, &format) {
        Ok(pair) => pair,
        Err(e) => {
            return Err(ScaleError::Decoding(error_text(&e)));
        },
    };
    let code = match found {
        Some(code) => code,
        None => UPRIGHT,
    };
    apply_orientation(&mut picture, code);
    let (natural_width, natural_height) = dimensions(&picture);
    let fitted = if width < natural_width && height < natural_height {
        let (new_width, new_height) = target_size(natural_width, natural_height, width, height);
        resize(&picture, new_width, new_height)
    } else {
        picture
    };
    match encode(&fitted, &format) {
        Ok(bytes) => Ok((mime_for_image(kind_of(&format)), bytes)),
        Err(e) => Err(ScaleError::Encoding(error_text(&e))),
    }
}

} // verus!
