//! The image-to-portable-encoding collaborator: album art and application
//! icons arrive as decoded platform images and leave as base64 text of their
//! WebP encoding. The two outside calls stand behind trusted wrappers; the
//! composition and the failure handling are verified.

use vstd::prelude::*;

verus! {

#[verifier::external_type_specification]
#[verifier::external_body]
pub struct ExDynamicImage(image::DynamicImage);

/// The WebP encoding of a decoded image, or `None` where the encoder fails
/// for it; an in-memory transform, a function of the image alone.
pub uninterp spec fn webp_bytes_of(img: image::DynamicImage) -> Option<Seq<u8>>;

/// The padded standard-alphabet base64 text of a byte string.
pub uninterp spec fn base64_of(bytes: Seq<u8>) -> Seq<char>;

pub open spec fn opt_bytes(v: Option<Vec<u8>>) -> Option<Seq<u8>> {
    match v {
        Some(b) => Some(b@),
        None => None,
    }
}

pub open spec fn opt_chars(s: Option<String>) -> Option<Seq<char>> {
    match s {
        Some(x) => Some(x@),
        None => None,
    }
}

/// The portable encoding of one image field: the base64 text of the image's
/// WebP bytes, absent where the encoder fails or where the encoding would be
/// too long for the base64 text's length to be computed in a `usize`.
pub open spec fn encoded_image(img: image::DynamicImage) -> Option<Seq<char>> {
    match webp_bytes_of(img) {
        Some(b) => if b.len() <= usize::MAX / 4 {
            Some(base64_of(b))
        } else {
            None
        },
        None => None,
    }
}

/// Relies on `image::DynamicImage::write_to` with `ImageFormat::WebP`: an
/// in-memory encode into the given writer, `Ok` exactly when the encoder
/// accepts the image, deterministic in the image.
#[verifier::external_body]
fn encode_webp(img: &image::DynamicImage) -> (r: Option<Vec<u8>>)
    ensures
        opt_bytes(r) == webp_bytes_of(*img),
{
    let mut buf = std::io::Cursor::new(Vec::new());
    match img.write_to(&mut buf, image::ImageFormat::WebP) {
        Ok(()) => Some(buf.into_inner()),
        Err(_) => None,
    }
}

/// Relies on `base64::Engine::encode` with the `STANDARD` engine: padded
/// base64 text, a function of the input bytes alone, four characters for
/// every three input bytes. The length bound keeps clear of the panic the
/// engine raises when the output length cannot be computed in a `usize`.
#[verifier::external_body]
fn base64_standard(bytes: &Vec<u8>) -> (r: String)
    requires
        bytes@.len() <= usize::MAX / 4,
    ensures
        r@ == base64_of(bytes@),
        r@.len() == 4 * ((bytes@.len() + 2) / 3),
{
    base64::Engine::encode(&base64::engine::general_purpose::STANDARD, bytes)
}

/// Encode an image as base64 text of its WebP bytes; `None` where the encoder
/// fails for this image (the caller then leaves the field absent).
pub fn image_as_base64(img: &image::DynamicImage) -> (r: Option<String>)
    ensures
        opt_chars(r) == encoded_image(*img),
{
    match encode_webp(img) {
        Some(bytes) => {
            if bytes.len() <= usize::MAX / 4 {
                Some(base64_standard(&bytes))
            } else {
                None
            }
        },
        None => None,
    }
}

} // verus!
