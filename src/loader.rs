//! Turning the outcome of reading an image file into RGBA8 pixels.

use vstd::prelude::*;

use crate::codec::{decode_rgba, rgba_decoding};

verus! {

/// An image as four bytes per pixel (red, green, blue, alpha), row by row
/// from the top.
pub struct DecodedImage {
    pub pixels: Vec<u8>,
    pub width: u32,
    pub height: u32,
}

impl View for DecodedImage {
    type V = (Seq<u8>, u32, u32);

    open spec fn view(&self) -> (Seq<u8>, u32, u32) {
        (self.pixels@, self.width, self.height)
    }
}

impl DecodedImage {
    /// Four bytes for each pixel, no more and no fewer.
    pub open spec fn wf(&self) -> bool {
        self.pixels@.len() == 4 * self.width * self.height
    }
}

/// Why an image could not be loaded, with the underlying cause.
pub enum LoadError {
    /// The file could not be opened or read.
    Open(String),
    /// The bytes are not an image in a supported format, or are damaged.
    Decode(String),
}

impl LoadError {
    /// The text a caller shows for this error.
    pub open spec fn message_spec(&self) -> Seq<char> {
        match self {
            LoadError::Open(cause) => "Failed to open image: "@ + cause@,
            LoadError::Decode(cause) => "Failed to decode image: "@ + cause@,
        }
    }

    /// The error as one line of text, its cause last.
    pub fn message(&self) -> (r: String)
        ensures
            r@ == self.message_spec(),
    {
        match self {
            LoadError::Open(cause) => {
                let mut text = String::from_str("Failed to open image: ");
                text.append(cause.as_str());
                text
            },
            LoadError::Decode(cause) => {
                let mut text = String::from_str("Failed to decode image: ");
                text.append(cause.as_str());
                text
            },
        }
    }
}

/// The decoded image of `bytes` with exactly four bytes per pixel, or the
/// text of the codec's error where they cannot be decoded.
pub open spec fn decoded(bytes: Seq<u8>) -> Result<(Seq<u8>, u32, u32), Seq<char>> {
    match rgba_decoding(bytes) {
        Ok((raw, w, h)) => Ok((raw.take(4 * w * h), w, h)),
        Err(text) => Err(text),
    }
}

/// What `decode_image` returns on `bytes`.
pub open spec fn decode_post(bytes: Seq<u8>, r: Result<DecodedImage, LoadError>) -> bool {
    match r {
        Ok(img) => img.wf() && decoded(bytes) == Ok::<_, Seq<char>>(img@),
        Err(LoadError::Decode(cause)) => decoded(bytes) == Err::<(Seq<u8>, u32, u32), _>(cause@),
        Err(LoadError::Open(_)) => false,
    }
}

/// Builds an image from a raw RGBA8 buffer holding at least `width * height`
/// pixels, dropping any bytes past the last pixel.
pub fn rgba_image(raw: Vec<u8>, width: u32, height: u32) -> (img: DecodedImage)
    requires
        raw@.len() >= 4 * width * height,
    ensures
        img.wf(),
        img@ == (raw@.take(4 * width * height), width, height),
{
    let mut pixels = raw;
    proof {
        let (w, h) = (width as int, height as int);
        assert(w * h <= 0xffff_ffff * 0xffff_ffff) by (nonlinear_arith)
            requires 0 <= w <= 0xffff_ffff, 0 <= h <= 0xffff_ffff;
    }
    let area: u128 = (width as u128) * (height as u128);
    let need: u128 = 4 * area;
    assert(need == 4 * width * height) by (nonlinear_arith)
        requires need == 4 * area, area == width * height;
    if need < pixels.len() as u128 {
        pixels.truncate(need as usize);
    }
    assert(pixels@ =~= raw@.take(4 * width * height));
    DecodedImage { pixels, width, height }
}

/// Decodes the bytes of an image file into RGBA8 pixels. The format is
/// told by the content; pixels without alpha become opaque, gray ones are
/// copied to red, green and blue.
pub fn decode_image(bytes: &[u8]) -> (r: Result<DecodedImage, LoadError>)
    ensures
        decode_post(bytes@, r),
        bytes@.len() == 0 ==> r is Err,
{
    match decode_rgba(bytes) {
        Ok((raw, width, height)) => Ok(rgba_image(raw, width, height)),
        Err(e) => Err(LoadError::Decode(e.to_string())),
    }
}

/// What `load_image` returns for the outcome `read` of reading a file.
pub open spec fn load_post(read: Result<Vec<u8>, String>, r: Result<DecodedImage, LoadError>) -> bool {
    match read {
        Ok(bytes) => decode_post(bytes@, r),
        Err(cause) => match r {
            Err(LoadError::Open(c)) => c@ == cause@,
            _ => false,
        },
    }
}

/// Loads an image from the outcome of reading its file: a failed read is an
/// open error carrying its cause, and the bytes of a successful one are
/// decoded as `decode_image` does.
pub fn load_image(read: Result<Vec<u8>, String>) -> (r: Result<DecodedImage, LoadError>)
    ensures
        load_post(read, r),
        read is Err ==> r matches Err(LoadError::Open(_)),
        read matches Ok(bytes) && bytes@.len() == 0 ==> r matches Err(LoadError::Decode(_)),
{
    match read {
        Ok(bytes) => decode_image(bytes.as_slice()),
        Err(cause) => Err(LoadError::Open(cause)),
    }
}

/// Decoding the same bytes twice gives the same outcome: both succeed with
/// the same pixels, width and height, or both fail to decode with the same
/// message.
pub proof fn lemma_decode_repeatable(
    bytes: Seq<u8>,
    r1: Result<DecodedImage, LoadError>,
    r2: Result<DecodedImage, LoadError>,
)
    requires
        decode_post(bytes, r1),
        decode_post(bytes, r2),
    ensures
        r1 is Ok <==> r2 is Ok,
        r1 is Ok ==> r1->Ok_0@ == r2->Ok_0@,
        r1 is Err ==> r1->Err_0 is Decode && r2->Err_0 is Decode,
        r1 is Err ==> r1->Err_0.message_spec() == r2->Err_0.message_spec(),
{
}

} // verus!
