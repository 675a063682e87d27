use vstd::prelude::*;
use crate::format::OutputFormat;
use crate::image_model::{ImageModel, RgbImageData};

verus! {

/// `image::DynamicImage`, opaque to the verifier: a decoded image in
/// whatever pixel layout the file held, before normalization.
#[verifier::external_type_specification]
#[verifier::external_body]
pub struct ExDynamicImage(image::DynamicImage);

/// `image::ImageError`, opaque to the verifier: why a decode failed.
#[verifier::external_type_specification]
#[verifier::external_body]
pub struct ExImageError(image::ImageError);

/// `image::ImageFormat`, opaque to the verifier: the encoder selector
/// the `image` crate takes.
#[verifier::external_type_specification]
#[verifier::external_body]
pub struct ExImageFormat(image::ImageFormat);

/// What a decoded image holds, normalized to three 8-bit channels:
/// grayscale expanded to three equal channels, alpha dropped.
pub uninterp spec fn rgb_model(img: image::DynamicImage) -> ImageModel;

/// What `image::load_from_memory` yields on the given bytes, as the
/// normalized model; None when the bytes do not decode.
pub uninterp spec fn decoded_rgb(bytes: Seq<u8>) -> Option<ImageModel>;

/// What `imageproc::filter::gaussian_blur_f32` yields on the given
/// image for the given standard deviation.
pub uninterp spec fn blurred_model(img: ImageModel, sigma: int) -> ImageModel;

/// What encoding the given image in the given format yields; None when
/// the encoder refuses the image.
pub uninterp spec fn encoded_bytes(img: ImageModel, fmt: OutputFormat) -> Option<Seq<u8>>;

/// Relies on `image::load_from_memory`: detects the format from the
/// bytes' content (never from a file name) and decodes them; a pure
/// function of the bytes.
#[verifier::external_body]
pub(crate) fn decode_image(bytes: &Vec<u8>) -> (r: Result<image::DynamicImage, image::ImageError>)
    ensures
        r matches Ok(img) ==> decoded_rgb(bytes@) == Some(rgb_model(img)),
        r is Err <==> decoded_rgb(bytes@) is None,
{
    image::load_from_memory(bytes)
}

/// Relies on `image::DynamicImage::into_rgb8`: converts the decoded
/// image to three 8-bit channels, expanding grayscale and dropping any
/// alpha channel; the buffer holds exactly 3 * width * height bytes in
/// row-major order.
#[verifier::external_body]
pub(crate) fn to_rgb8(img: image::DynamicImage) -> (r: RgbImageData)
    ensures
        r@ == rgb_model(img),
        r.wf(),
{
    let buf = img.into_rgb8();
    let width = buf.width();
    let height = buf.height();
    RgbImageData { width, height, pixels: buf.into_raw() }
}

/// Relies on `imageproc::filter::gaussian_blur_f32`: a separable
/// Gaussian blur that pads by continuity (clamp-to-edge) at the
/// borders and keeps the image's dimensions; deterministic in the
/// pixels and sigma. It panics only on sigma zero, which the
/// precondition excludes.
#[verifier::external_body]
pub(crate) fn blur_rgb(img: RgbImageData, sigma: u16) -> (r: RgbImageData)
    requires
        img.wf(),
        1 <= sigma,
    ensures
        r@ == blurred_model(img@, sigma as int),
        r.width == img.width,
        r.height == img.height,
        r.wf(),
{
    let buf = image::RgbImage::from_raw(img.width, img.height, img.pixels)
        .expect("buffer length matches the dimensions");
    let out = imageproc::filter::gaussian_blur_f32(&buf, sigma.into());
    let width = out.width();
    let height = out.height();
    RgbImageData { width, height, pixels: out.into_raw() }
}

/// Converts the library's format selector to the `image` crate's.
#[verifier::external_body]
pub(crate) fn to_image_format(fmt: OutputFormat) -> image::ImageFormat {
    match fmt {
        OutputFormat::Png => image::ImageFormat::Png,
        OutputFormat::Jpeg => image::ImageFormat::Jpeg,
        OutputFormat::Bmp => image::ImageFormat::Bmp,
        OutputFormat::Gif => image::ImageFormat::Gif,
        OutputFormat::Ico => image::ImageFormat::Ico,
        OutputFormat::Tiff => image::ImageFormat::Tiff,
    }
}

/// Relies on `image::ImageBuffer::write_to`: encodes the pixels in the
/// chosen format into an in-memory buffer; deterministic in the pixels
/// and the format; None when the encoder refuses the image (for
/// instance dimensions the format cannot carry).
#[verifier::external_body]
pub(crate) fn encode_rgb(img: RgbImageData, fmt: OutputFormat) -> (r: Option<Vec<u8>>)
    requires
        img.wf(),
    ensures
        r matches Some(b) ==> encoded_bytes(img@, fmt) == Some(b@),
        r is None <==> encoded_bytes(img@, fmt) is None,
{
    let buf = image::RgbImage::from_raw(img.width, img.height, img.pixels)
        .expect("buffer length matches the dimensions");
    let mut cursor = std::io::Cursor::new(Vec::new());
    match buf.write_to(&mut cursor, to_image_format(fmt)) {
        Ok(()) => Some(cursor.into_inner()),
        Err(_) => None,
    }
}

} // verus!
