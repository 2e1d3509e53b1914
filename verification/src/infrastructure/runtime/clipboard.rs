//! What a clipboard image becomes. Reading and writing the clipboard itself is the caller's.
use vstd::prelude::*;
use base64::Engine;
use crate::domain::input_buffer::ImageAttachment;
use crate::text::cat2;

verus! {

/// An image as the clipboard holds it: RGBA8, row-major, four bytes per pixel.
#[derive(Debug, Clone, PartialEq, Eq)]
pub struct ClipboardImage {
    pub width: usize,
    pub height: usize,
    pub bytes: Vec<u8>,
}

/// What the OS clipboard held when read: an image (encoded as a PNG data URL ready for the provider's multimodal
/// content), plain text, nothing usable, or an image that was present but could not be encoded.
#[derive(Debug, Clone, PartialEq, Eq)]
pub enum ClipboardContent {
    Image(ImageAttachment),
    Text(String),
    /// An image was present on the clipboard but could not be encoded (zero-sized or malformed). Distinct from
    /// `Empty` so the caller surfaces a notice instead of a silent no-op that looks like "nothing was pasted".
    Unreadable,
    Empty,
}

/// The PNG file of an RGBA8 image, where it can be encoded.
pub uninterp spec fn png_file(width: u32, height: u32, bytes: Seq<u8>) -> Option<Seq<u8>>;

/// The base64 notation (standard alphabet, padded) of a file.
pub uninterp spec fn base64_text(bytes: Seq<u8>) -> Seq<char>;

/// `png::Encoder`: encodes an RGBA8 image of four bytes per pixel, or fails where the dimensions are zero. The file
/// itself is not spelled out: it is named.
#[verifier::external_body]
fn encode_png(width: u32, height: u32, bytes: &Vec<u8>) -> (r: Option<Vec<u8>>)
    requires
        bytes@.len() == width as int * height as int * 4,
    ensures
        match r {
            Some(file) => png_file(width, height, bytes@) == Some(file@),
            None => png_file(width, height, bytes@) is None,
        },
{
    let mut file: Vec<u8> = Vec::new();
    let mut encoder = png::Encoder::new(&mut file, width, height);
    encoder.set_color(png::ColorType::Rgba);
    encoder.set_depth(png::BitDepth::Eight);
    let mut writer = encoder.write_header().ok()?;
    writer.write_image_data(bytes).ok()?;
    drop(writer);
    Some(file)
}

/// `base64::engine::general_purpose::STANDARD.encode`. The notation is not spelled out: it is named.
#[verifier::external_body]
fn encode_base64(bytes: &Vec<u8>) -> (r: String)
    ensures
        r@ == base64_text(bytes@),
{
    base64::engine::general_purpose::STANDARD.encode(bytes)
}

/// The attachment of an image whose PNG file is `file`; unreadable where there is none.
pub open spec fn content_of(width: usize, height: usize, file: Option<Seq<u8>>, c: ClipboardContent) -> bool {
    match file {
        Some(f) => c matches ClipboardContent::Image(a) && a.width == width && a.height == height
            && a.data_url@ == "data:image/png;base64,"@ + base64_text(f),
        None => c == ClipboardContent::Unreadable,
    }
}

/// The PNG file of a clipboard image; none for an image without pixels, larger than the format allows, or whose bytes
/// are not four per pixel.
pub open spec fn image_file(image: ClipboardImage) -> Option<Seq<u8>> {
    if image.width == 0 || image.height == 0 || image.width > u32::MAX || image.height > u32::MAX
        || image.bytes@.len() != image.width * image.height * 4 {
        None
    } else {
        png_file(image.width as u32, image.height as u32, image.bytes@)
    }
}

/// Stage an image that was encoded as `file`, or report it as unreadable.
pub fn staged_image(width: usize, height: usize, file: Option<Vec<u8>>) -> (r: ClipboardContent)
    ensures
        content_of(
            width,
            height,
            match file {
                Some(f) => Some(f@),
                None => None,
            },
            r,
        ),
{
    match file {
        Some(f) => ClipboardContent::Image(
            ImageAttachment {
                data_url: cat2("data:image/png;base64,", encode_base64(&f).as_str()),
                width,
                height,
            },
        ),
        None => ClipboardContent::Unreadable,
    }
}

/// Classify a present clipboard image: an encodable image becomes a staged attachment; one that cannot be encoded
/// (zero-sized/malformed) is `Unreadable`, never silently treated as an empty clipboard.
pub fn classify_image(image: &ClipboardImage) -> (r: ClipboardContent)
    ensures
        content_of(image.width, image.height, image_file(*image), r),
{
    let max: u64 = 0xffff_ffff;
    if image.width == 0 || image.height == 0 || image.width as u64 > max || image.height as u64
        > max {
        return ClipboardContent::Unreadable;
    }
    assert(image.width as u128 * image.height as u128 <= 0xffff_ffff * 0xffff_ffff) by (nonlinear_arith)
        requires
            image.width as int <= 0xffff_ffff,
            image.height as int <= 0xffff_ffff,
    ;
    let pixels: u128 = image.width as u128 * image.height as u128;
    if image.bytes.len() as u128 != pixels * 4 {
        return ClipboardContent::Unreadable;
    }
    let file: Option<Vec<u8>> = encode_png(image.width as u32, image.height as u32, &image.bytes);
    staged_image(image.width, image.height, file)
}

/// A clipboard without an image: its text where it has any.
pub fn classify_text(text: Option<String>) -> (r: ClipboardContent)
    ensures
        match text {
            Some(t) if t@.len() > 0 => r == ClipboardContent::Text(t),
            _ => r == ClipboardContent::Empty,
        },
{
    match text {
        Some(t) => {
            if t.as_str().is_empty() {
                ClipboardContent::Empty
            } else {
                ClipboardContent::Text(t)
            }
        },
        None => ClipboardContent::Empty,
    }
}

} // verus!
