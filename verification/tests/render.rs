use std::io::Cursor;

use placepix::error::ServeError;
use placepix::resizer::render_jpeg;

fn sample_jpeg(width: u32, height: u32) -> Vec<u8> {
    let pixel = image::Rgb([200u8, 30, 40]);
    let img = image::DynamicImage::ImageRgb8(image::RgbImage::from_pixel(width, height, pixel));
    let mut buf: Vec<u8> = Vec::new();
    img.write_to(&mut Cursor::new(&mut buf), image::ImageOutputFormat::Jpeg(90))
        .expect("encoding the sample image succeeds");
    buf
}

#[test]
fn renders_exact_requested_dimensions() {
    let source = sample_jpeg(64, 48);
    let out = render_jpeg(&source, 100, 200).expect("valid source bytes render");
    let decoded = image::load_from_memory(&out).expect("output is a valid image");
    assert_eq!(decoded.width(), 100);
    assert_eq!(decoded.height(), 200);
    assert_eq!(
        image::guess_format(&out).expect("output has a known format"),
        image::ImageFormat::Jpeg
    );
}

#[test]
fn renders_with_fast_filter_for_large_output() {
    // width + height above the threshold takes the fast-filter path.
    let source = sample_jpeg(32, 32);
    let out = render_jpeg(&source, 2000, 1500).expect("valid source bytes render");
    let decoded = image::load_from_memory(&out).expect("output is a valid image");
    assert_eq!(decoded.width(), 2000);
    assert_eq!(decoded.height(), 1500);
}

#[test]
fn rendering_is_deterministic() {
    let source = sample_jpeg(40, 30);
    let first = render_jpeg(&source, 80, 60).expect("valid source bytes render");
    let second = render_jpeg(&source, 80, 60).expect("valid source bytes render");
    assert_eq!(first, second);
}

#[test]
fn unknown_bytes_are_unsupported() {
    let bytes = vec![1u8, 2, 3, 4, 5, 6, 7, 8];
    let err = render_jpeg(&bytes, 10, 10).unwrap_err();
    assert_eq!(err, ServeError::UnsupportedOperation);
}

#[test]
fn truncated_jpeg_is_a_decode_error() {
    let mut source = sample_jpeg(64, 48);
    source.truncate(20);
    let err = render_jpeg(&source, 10, 10).unwrap_err();
    assert_eq!(err, ServeError::DecodeError);
}
