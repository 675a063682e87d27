use rustyblur::{blur_image_bytes, gaussian_blur, BlurError, DEFAULT_SIGMA};

fn png_bytes_rgb(img: &image::RgbImage) -> Vec<u8> {
    let mut cursor = std::io::Cursor::new(Vec::new());
    img.write_to(&mut cursor, image::ImageFormat::Png)
        .expect("png encoding");
    cursor.into_inner()
}

fn checkerboard(side: u32, square: u32) -> image::RgbImage {
    image::RgbImage::from_fn(side, side, |x, y| {
        if ((x / square) + (y / square)) % 2 == 0 {
            image::Rgb([0u8, 0u8, 0u8])
        } else {
            image::Rgb([255u8, 255u8, 255u8])
        }
    })
}

fn max_adjacent_delta(img: &image::RgbImage) -> u8 {
    let mut m = 0u8;
    for y in 0..img.height() {
        for x in 0..img.width() - 1 {
            let a = img.get_pixel(x, y);
            let b = img.get_pixel(x + 1, y);
            for c in 0..3 {
                let d = a.0[c].abs_diff(b.0[c]);
                if d > m {
                    m = d;
                }
            }
        }
    }
    m
}

fn high_frequency_energy(img: &image::RgbImage) -> u64 {
    let mut sum = 0u64;
    for y in 0..img.height() {
        for x in 0..img.width() - 1 {
            let a = img.get_pixel(x, y);
            let b = img.get_pixel(x + 1, y);
            for c in 0..3 {
                let d = a.0[c].abs_diff(b.0[c]) as u64;
                sum += d * d;
            }
        }
    }
    for y in 0..img.height() - 1 {
        for x in 0..img.width() {
            let a = img.get_pixel(x, y);
            let b = img.get_pixel(x, y + 1);
            for c in 0..3 {
                let d = a.0[c].abs_diff(b.0[c]) as u64;
                sum += d * d;
            }
        }
    }
    sum
}

#[test]
fn checkerboard_scenario() {
    let src = checkerboard(100, 10);
    let bytes = png_bytes_rgb(&src);
    let result = gaussian_blur(&bytes, String::from("out.png"), DEFAULT_SIGMA)
        .expect("a valid png must decode");
    assert_eq!(result.0, "out.png");
    let out = result.1.expect("png is a supported destination format");
    let decoded = image::load_from_memory(&out).expect("output must decode");
    assert_eq!(decoded.width(), 100);
    assert_eq!(decoded.height(), 100);
    assert_eq!(decoded.color(), image::ColorType::Rgb8);
    let blurred = decoded.into_rgb8();
    assert_eq!(max_adjacent_delta(&src), 255);
    assert!(max_adjacent_delta(&blurred) < max_adjacent_delta(&src));
}

#[test]
fn blur_lowers_high_frequency_energy() {
    let src = checkerboard(100, 10);
    let bytes = png_bytes_rgb(&src);
    let out = blur_image_bytes(&bytes, "out.png", DEFAULT_SIGMA).expect("valid input");
    let blurred = image::load_from_memory(&out).expect("output decodes").into_rgb8();
    assert!(high_frequency_energy(&blurred) < high_frequency_energy(&src));
}

#[test]
fn identical_inputs_identical_outputs() {
    let src = checkerboard(60, 6);
    let bytes = png_bytes_rgb(&src);
    let first = blur_image_bytes(&bytes, "out.png", DEFAULT_SIGMA).expect("valid input");
    let second = blur_image_bytes(&bytes, "out.png", DEFAULT_SIGMA).expect("valid input");
    assert_eq!(first, second);
}

#[test]
fn grayscale_input_becomes_three_channels() {
    let gray = image::GrayImage::from_fn(40, 40, |x, y| {
        if (x + y) % 2 == 0 {
            image::Luma([0u8])
        } else {
            image::Luma([200u8])
        }
    });
    let mut cursor = std::io::Cursor::new(Vec::new());
    gray.write_to(&mut cursor, image::ImageFormat::Png)
        .expect("png encoding");
    let out = blur_image_bytes(&cursor.into_inner(), "out.png", DEFAULT_SIGMA)
        .expect("valid input");
    let decoded = image::load_from_memory(&out).expect("output decodes");
    assert_eq!(decoded.color(), image::ColorType::Rgb8);
    let rgb = decoded.into_rgb8();
    for p in rgb.pixels() {
        assert_eq!(p.0[0], p.0[1]);
        assert_eq!(p.0[1], p.0[2]);
    }
}

#[test]
fn alpha_input_loses_its_alpha_channel() {
    let rgba = image::RgbaImage::from_fn(40, 40, |x, _y| {
        image::Rgba([10u8, 20u8, 30u8, if x % 2 == 0 { 0u8 } else { 255u8 }])
    });
    let mut cursor = std::io::Cursor::new(Vec::new());
    rgba.write_to(&mut cursor, image::ImageFormat::Png)
        .expect("png encoding");
    let out = blur_image_bytes(&cursor.into_inner(), "out.png", DEFAULT_SIGMA)
        .expect("valid input");
    let decoded = image::load_from_memory(&out).expect("output decodes");
    assert_eq!(decoded.color(), image::ColorType::Rgb8);
    assert_eq!(decoded.width(), 40);
    assert_eq!(decoded.height(), 40);
}

#[test]
fn corrupt_source_is_a_decode_failure() {
    let junk = vec![1u8, 2, 3, 4, 5, 6, 7, 8];
    assert_eq!(
        blur_image_bytes(&junk, "out.png", DEFAULT_SIGMA),
        Err(BlurError::DecodeFailed)
    );
    assert_eq!(
        gaussian_blur(&junk, String::from("out.png"), DEFAULT_SIGMA),
        Err(BlurError::DecodeFailed)
    );
}

#[test]
fn empty_source_is_a_decode_failure() {
    let empty: Vec<u8> = Vec::new();
    assert_eq!(
        blur_image_bytes(&empty, "out.png", DEFAULT_SIGMA),
        Err(BlurError::DecodeFailed)
    );
}

#[test]
fn unsupported_extension_is_swallowed() {
    let src = checkerboard(20, 5);
    let bytes = png_bytes_rgb(&src);
    let result = gaussian_blur(&bytes, String::from("out.xyz"), DEFAULT_SIGMA)
        .expect("decode succeeds, so no error may surface");
    assert_eq!(result.0, "out.xyz");
    assert_eq!(result.1, None);
}

#[test]
fn unsupported_extension_is_reported_by_the_pipeline() {
    let src = checkerboard(20, 5);
    let bytes = png_bytes_rgb(&src);
    assert_eq!(
        blur_image_bytes(&bytes, "out.xyz", DEFAULT_SIGMA),
        Err(BlurError::UnsupportedExtension)
    );
    assert_eq!(
        blur_image_bytes(&bytes, "out", DEFAULT_SIGMA),
        Err(BlurError::UnsupportedExtension)
    );
}

#[test]
fn encoder_refusal_is_reported_by_the_pipeline() {
    // The ico encoder carries at most 256 pixels per side.
    let src = checkerboard(300, 10);
    let bytes = png_bytes_rgb(&src);
    assert_eq!(
        blur_image_bytes(&bytes, "out.ico", DEFAULT_SIGMA),
        Err(BlurError::EncodeFailed)
    );
}

#[test]
fn encoder_refusal_is_swallowed() {
    let src = checkerboard(300, 10);
    let bytes = png_bytes_rgb(&src);
    let result = gaussian_blur(&bytes, String::from("out.ico"), DEFAULT_SIGMA)
        .expect("decode succeeds, so no error may surface");
    assert_eq!(result.0, "out.ico");
    assert_eq!(result.1, None);
}

#[test]
fn bmp_output_round_trips() {
    let src = checkerboard(32, 8);
    let bytes = png_bytes_rgb(&src);
    let out = blur_image_bytes(&bytes, "out.bmp", DEFAULT_SIGMA).expect("valid input");
    let decoded = image::load_from_memory(&out).expect("bmp output decodes");
    assert_eq!(decoded.width(), 32);
    assert_eq!(decoded.height(), 32);
}

#[test]
fn decode_failure_message_matches_the_fatal_diagnostic() {
    assert_eq!(BlurError::DecodeFailed.message(), "File could not be loaded");
    assert_eq!(
        BlurError::UnsupportedExtension.message(),
        "Unsupported destination extension"
    );
    assert_eq!(BlurError::EncodeFailed.message(), "Image could not be encoded");
}
