//! Processing of one downloaded image: decode its dimensions, apply the
//! resolution gate, derive the destination name from the source URL, and
//! decide whether anything is written. Downloading and the filesystem stay
//! outside the library; this module decides, from the bytes and the URL,
//! exactly what would be written and under which name.

use vstd::prelude::*;

use crate::error::RedditError;
use crate::error::RedditResult;

verus! {

/// The smallest largest-dimension an image may have and still be kept.
pub const MIN_DIMENSION: u32 = 1600;

/// A decoded image: its dimensions, and the decoder's handle used only to
/// re-encode it.
pub struct DecodedImage {
    pub width: u32,
    pub height: u32,
    pub handle: image::DynamicImage,
}

#[verifier::external_type_specification]
#[verifier::external_body]
pub struct ExDynamicImage(image::DynamicImage);

/// The dimensions of the image encoded by these bytes, when they are a
/// recognized image encoding; what `image`'s auto-detecting decoder yields.
pub uninterp spec fn image_dims(bytes: Seq<u8>) -> Option<(u32, u32)>;

/// Relies on image::io::Reader: `with_guessed_format` detects the format
/// from the leading bytes and `decode` yields the image; success and the
/// image's `width` and `height` depend on the bytes alone.
#[verifier::external_body]
fn decode_image_bytes(bytes: &Vec<u8>) -> (r: Option<DecodedImage>)
    ensures
        r is Some <==> image_dims(bytes@) is Some,
        r matches Some(d) ==> Some((d.width, d.height)) == image_dims(bytes@),
{
    let reader = image::io::Reader::new(std::io::Cursor::new(bytes.as_slice()));
    let guessed = match reader.with_guessed_format() {
        Ok(g) => g,
        Err(_) => {
            return None;
        },
    };
    match guessed.decode() {
        Ok(img) => Some(DecodedImage { width: img.width(), height: img.height(), handle: img }),
        Err(_) => None,
    }
}

/// The quality-100 JPEG encoding of a decoded image, when the encoder
/// accepts it; what `image`'s JPEG path produces.
pub uninterp spec fn jpeg_bytes_of(img: DecodedImage) -> Option<Seq<u8>>;

/// Relies on image::DynamicImage::write_to with `ImageOutputFormat::Jpeg(100)`:
/// it writes the quality-100 JPEG encoding of the image into the buffer.
/// Success and the produced bytes depend on the image alone: the quality is a
/// fixed constant, the encoder's tables are fixed, and oversized dimensions
/// fail with an error rather than a panic.
#[verifier::external_body]
fn encode_jpeg_bytes(img: &DecodedImage) -> (r: Option<Vec<u8>>)
    ensures
        r is Some <==> jpeg_bytes_of(*img) is Some,
        r matches Some(v) ==> Some(v@) == jpeg_bytes_of(*img),
{
    let mut buff = std::io::Cursor::new(Vec::new());
    match img.handle.write_to(&mut buff, image::ImageOutputFormat::Jpeg(100)) {
        Ok(()) => Some(buff.into_inner()),
        Err(_) => None,
    }
}

/// The trailing run of characters other than `/`.
pub open spec fn tail_segment(s: Seq<char>) -> Seq<char>
    decreases s.len(),
{
    if s.len() == 0 || s.last() == '/' {
        Seq::empty()
    } else {
        tail_segment(s.drop_last()).push(s.last())
    }
}

/// Relies on regex::Regex::new and Regex::find with the pattern `[^/]+$`
/// (`new` cannot fail on this fixed pattern): the match is the non-empty
/// trailing run of characters other than `/`, and there is none exactly when
/// the text is empty or ends in `/`.
#[verifier::external_body]
fn regex_last_segment(url: &str) -> (r: Option<String>)
    ensures
        r matches Some(s) ==> s@ == tail_segment(url@) && url@.len() > 0 && url@.last() != '/',
        r is None ==> url@.len() == 0 || url@.last() == '/',
{
    let pattern = regex::Regex::new("[^/]+$").unwrap();
    pattern.find(url).map(|m| m.as_str().to_string())
}

/// The larger of the two dimensions.
pub open spec fn max_dim(w: u32, h: u32) -> u32 {
    if w >= h {
        w
    } else {
        h
    }
}

/// Whether an image of these dimensions passes the resolution gate.
pub open spec fn passes_gate(w: u32, h: u32) -> bool {
    max_dim(w, h) >= MIN_DIMENSION
}

/// `sir` for a strictly wider image, `vys` otherwise — ties go to `vys`.
pub open spec fn orientation_prefix_spec(w: u32, h: u32) -> Seq<char> {
    if w > h {
        "sir"@
    } else {
        "vys"@
    }
}

/// The file name an image downloaded from `url` is written under.
pub open spec fn destination_name_spec(w: u32, h: u32, url: Seq<char>) -> Seq<char> {
    orientation_prefix_spec(w, h) + "_"@ + tail_segment(url)
}

/// The orientation tag of the destination name.
pub fn orientation_prefix(w: u32, h: u32) -> (r: &'static str)
    ensures
        r@ == orientation_prefix_spec(w, h),
{
    if w > h {
        "sir"
    } else {
        "vys"
    }
}

/// What is to happen with one downloaded image.
pub enum ImagePlan {
    /// The image failed the resolution gate and is discarded; this is not an
    /// error.
    TooSmall,
    /// The image is to be written under `name`, unless a file of that name
    /// already exists.
    Save { name: String, image: DecodedImage },
}

/// The destination name a plan writes under, if it writes at all.
pub open spec fn plan_name(plan: ImagePlan) -> Option<Seq<char>> {
    match plan {
        ImagePlan::TooSmall => None,
        ImagePlan::Save { name, image } => Some(name@),
    }
}

/// Decides what happens with the bytes fetched from `url`: unrecognizable
/// bytes are a decode error, an undersized image is dropped, and any other
/// image is to be saved under its orientation prefix and the URL's trailing
/// path segment, which must exist.
pub fn plan_image(url: &str, bytes: &Vec<u8>) -> (r: RedditResult<ImagePlan>)
    ensures
        image_dims(bytes@) is None <==> r == Err::<ImagePlan, RedditError>(RedditError::Decode),
        image_dims(bytes@) matches Some(dims) ==> {
            &&& !passes_gate(dims.0, dims.1) <==> r == Ok::<ImagePlan, RedditError>(
                ImagePlan::TooSmall,
            )
            &&& passes_gate(dims.0, dims.1) && (url@.len() == 0 || url@.last() == '/') ==> (r
                matches Err(e) && e.message_spec() == "image url has no file name"@
                && e is Message)
            &&& passes_gate(dims.0, dims.1) && url@.len() > 0 && url@.last() != '/' ==> (r
                matches Ok(p) && p matches ImagePlan::Save { name, image } && name@
                == destination_name_spec(dims.0, dims.1, url@) && image.width == dims.0
                && image.height == dims.1)
        },
{
    let d = match decode_image_bytes(bytes) {
        Some(d) => d,
        None => {
            return Err(RedditError::Decode);
        },
    };
    let largest = if d.width >= d.height {
        d.width
    } else {
        d.height
    };
    if largest < MIN_DIMENSION {
        return Ok(ImagePlan::TooSmall);
    }
    let segment = match regex_last_segment(url) {
        Some(s) => s,
        None => {
            return Err(RedditError::Message(String::from_str("image url has no file name")));
        },
    };
    let prefix = orientation_prefix(d.width, d.height);
    let name = String::from_str(prefix).concat("_").concat(segment.as_str());
    Ok(ImagePlan::Save { name, image: d })
}

/// Re-encodes a decoded image as its quality-100 JPEG bytes — the content a
/// destination file is written with; it fails, with the encoder's error,
/// exactly when the encoder rejects the image.
pub fn encode_image(img: &DecodedImage) -> (r: RedditResult<Vec<u8>>)
    ensures
        r matches Err(e) ==> e == RedditError::Encode,
        jpeg_bytes_of(*img) is None <==> r == Err::<Vec<u8>, RedditError>(RedditError::Encode),
        r matches Ok(v) ==> Some(v@) == jpeg_bytes_of(*img),
{
    match encode_jpeg_bytes(img) {
        Some(v) => Ok(v),
        None => Err(RedditError::Encode),
    }
}

/// The idempotence hinge: nothing is written when a file of the plan's name
/// already exists, and a plan that discards the image writes nothing either.
pub fn write_decision<'a>(plan: &'a ImagePlan, already_exists: bool) -> (r: Option<&'a String>)
    ensures
        already_exists ==> r is None,
        !already_exists ==> {
            &&& (r is Some <==> plan_name(*plan) is Some)
            &&& (r matches Some(n) ==> Some(n@) == plan_name(*plan))
        },
{
    if already_exists {
        return None;
    }
    match plan {
        ImagePlan::Save { name, image } => Some(name),
        ImagePlan::TooSmall => None,
    }
}

/// The resolution gate is inclusive at the threshold: a largest dimension
/// one below it is rejected, one at or above it passes.
pub proof fn lemma_gate_boundary(w: u32, h: u32)
    ensures
        max_dim(w, h) == MIN_DIMENSION - 1 ==> !passes_gate(w, h),
        max_dim(w, h) >= MIN_DIMENSION ==> passes_gate(w, h),
{
}

/// A strictly wider image is prefixed `sir`; a taller or square one `vys`.
pub proof fn lemma_orientation(w: u32, h: u32)
    ensures
        w > h ==> orientation_prefix_spec(w, h) == "sir"@,
        w <= h ==> orientation_prefix_spec(w, h) == "vys"@,
{
}

} // verus!
