use vstd::prelude::*;
use crate::bridge::{blur_rgb, blurred_model, decode_image, decoded_rgb, encode_rgb, encoded_bytes};
use crate::bridge::to_rgb8;
use crate::format::{format_for_path, format_of_path};
use crate::image_model::ImageModel;

verus! {

/// The blur strength (Gaussian standard deviation) used when the
/// caller does not choose one.
pub const DEFAULT_SIGMA: u16 = 6;

/// How the operation can fail. Only a decode failure is fatal to the
/// operation; the other two are swallowed by `gaussian_blur`, which
/// still hands the destination path back.
#[derive(Clone, Copy, PartialEq, Eq, Structural, Debug)]
pub enum BlurError {
    /// The source bytes are not a decodable image.
    DecodeFailed,
    /// The destination path selects no supported output format.
    UnsupportedExtension,
    /// The encoder refused the blurred image.
    EncodeFailed,
}

impl BlurError {
    /// The diagnostic the embedding layer raises for each failure; the
    /// decode diagnostic is the one the operation is known by.
    pub fn message(&self) -> (r: &'static str)
        ensures
            *self == BlurError::DecodeFailed ==> r@ == "File could not be loaded"@,
            *self == BlurError::UnsupportedExtension ==> r@ == "Unsupported destination extension"@,
            *self == BlurError::EncodeFailed ==> r@ == "Image could not be encoded"@,
    {
        match self {
            BlurError::DecodeFailed => "File could not be loaded",
            BlurError::UnsupportedExtension => "Unsupported destination extension",
            BlurError::EncodeFailed => "Image could not be encoded",
        }
    }
}

/// The outcome of the whole compute pipeline on the given source
/// bytes, destination path and sigma: decode and normalize, look the
/// output format up, blur, encode.
pub open spec fn blur_outcome(src: Seq<u8>, dest: Seq<char>, sigma: int) -> Result<
    Seq<u8>,
    BlurError,
> {
    match decoded_rgb(src) {
        Option::None => Result::Err(BlurError::DecodeFailed),
        Option::Some(m) => match format_of_path(dest) {
            Option::None => Result::Err(BlurError::UnsupportedExtension),
            Option::Some(f) => match encoded_bytes(blurred_model(m, sigma), f) {
                Option::None => Result::Err(BlurError::EncodeFailed),
                Option::Some(b) => Result::Ok(b),
            },
        },
    }
}

/// Decodes the source bytes, normalizes them to three 8-bit channels,
/// blurs them with the given sigma, and encodes the result in the
/// format the destination path's extension selects. Every failure is
/// reported; nothing is written anywhere.
pub fn blur_image_bytes(src: &Vec<u8>, dest_path: &str, sigma: u16) -> (r: Result<
    Vec<u8>,
    BlurError,
>)
    requires
        1 <= sigma,
    ensures
        (match r {
            Result::Ok(b) => blur_outcome(src@, dest_path@, sigma as int) == Result::<
                Seq<u8>,
                BlurError,
            >::Ok(b@),
            Result::Err(e) => blur_outcome(src@, dest_path@, sigma as int) == Result::<
                Seq<u8>,
                BlurError,
            >::Err(e),
        }),
{
    let img = match decode_image(src) {
        Result::Ok(img) => img,
        Result::Err(_) => {
            return Result::Err(BlurError::DecodeFailed);
        },
    };
    let rgb = to_rgb8(img);
    let fmt = match format_for_path(dest_path) {
        Option::Some(f) => f,
        Option::None => {
            return Result::Err(BlurError::UnsupportedExtension);
        },
    };
    let blurred = blur_rgb(rgb, sigma);
    match encode_rgb(blurred, fmt) {
        Option::Some(b) => Result::Ok(b),
        Option::None => Result::Err(BlurError::EncodeFailed),
    }
}

/// The blur operation as the embedding layer sees it: on success it
/// hands back the destination path together with the bytes to write
/// there; a destination whose extension selects no format, or an image
/// the encoder refuses, is deliberately swallowed — the path comes
/// back with no bytes, exactly as the original save result was
/// discarded. Only a decode failure is an error.
pub fn gaussian_blur(src: &Vec<u8>, dest_path: String, sigma: u16) -> (r: Result<
    (String, Option<Vec<u8>>),
    BlurError,
>)
    requires
        1 <= sigma,
    ensures
        r is Err <==> decoded_rgb(src@) is None,
        r matches Err(e) ==> e == BlurError::DecodeFailed,
        r matches Ok(p) ==> p.0@ == dest_path@,
        r matches Ok(p) ==> (match p.1 {
            Option::Some(b) => blur_outcome(src@, dest_path@, sigma as int) == Result::<
                Seq<u8>,
                BlurError,
            >::Ok(b@),
            Option::None => blur_outcome(src@, dest_path@, sigma as int) is Err
                && blur_outcome(src@, dest_path@, sigma as int) != Result::<
                Seq<u8>,
                BlurError,
            >::Err(BlurError::DecodeFailed),
        }),
{
    match blur_image_bytes(src, dest_path.as_str(), sigma) {
        Result::Ok(b) => Result::Ok((dest_path, Option::Some(b))),
        Result::Err(BlurError::DecodeFailed) => Result::Err(BlurError::DecodeFailed),
        Result::Err(_) => Result::Ok((dest_path, Option::None)),
    }
}

/// Determinism: the pipeline's outcome is a function of the source
/// bytes, the destination path and sigma alone, so two runs on
/// identical inputs yield identical results.
pub proof fn lemma_blur_deterministic(
    src: Seq<u8>,
    dest: Seq<char>,
    sigma: int,
    r1: Result<Seq<u8>, BlurError>,
    r2: Result<Seq<u8>, BlurError>,
)
    requires
        r1 == blur_outcome(src, dest, sigma),
        r2 == blur_outcome(src, dest, sigma),
    ensures
        r1 == r2,
{
}

} // verus!
