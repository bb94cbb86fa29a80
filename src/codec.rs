//! The calls into the `image` crate, and what the library assumes of them.

use vstd::prelude::*;
use vstd::string::to_string_from_display_ensures;

verus! {

#[verifier::external_type_specification]
#[verifier::external_body]
pub struct ExImageError(image::ImageError);

/// What the `image` crate makes of `bytes`: the RGBA8 image (raw buffer,
/// width, height), or the text of the error where it cannot decode them.
pub uninterp spec fn rgba_decoding(bytes: Seq<u8>) -> Result<(Seq<u8>, u32, u32), Seq<char>>;

/// Relies on `image::guess_format`, which matches the first bytes against the
/// crate's own table of signatures (none of them empty, so an empty input
/// fails), then `image::load_from_memory_with_format`, which decodes with that
/// built-in format under the default limits, then `DynamicImage::to_rgba8`,
/// `ImageBuffer::dimensions` and `ImageBuffer::into_raw`. Neither call reads
/// the process-wide tables of format-detection or decoding hooks, so the
/// outcome and the text of its error depend on the bytes alone; the JPEG
/// decoder's SIMD paths compute the same integers as its scalar ones, which
/// its own tests compare. Every `ImageBuffer` holds at least four bytes per
/// RGBA pixel (`ImageBuffer::new`, `from_raw`).
#[verifier::external_body]
pub(crate) fn decode_rgba(bytes: &[u8]) -> (r: Result<(Vec<u8>, u32, u32), image::ImageError>)
    ensures
        match r {
            Ok((raw, w, h)) => {
                &&& rgba_decoding(bytes@) == Ok::<_, Seq<char>>((raw@, w, h))
                &&& raw@.len() >= 4 * w * h
            },
            Err(e) => {
                &&& rgba_decoding(bytes@) is Err
                &&& forall|s: String| #[trigger]
                    to_string_from_display_ensures::<image::ImageError>(&e, s)
                        ==> rgba_decoding(bytes@) == Err::<(Seq<u8>, u32, u32), _>(s@)
            },
        },
        bytes@.len() == 0 ==> r is Err,
{
    let format = image::guess_format(bytes)?;
    let img = image::load_from_memory_with_format(bytes, format)?;
    let rgba = img.to_rgba8();
    let (w, h) = rgba.dimensions();
    Ok((rgba.into_raw(), w, h))
}

} // verus!
