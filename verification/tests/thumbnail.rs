use std::io::Cursor;

use thumbnailer::errors::ThumbnailError;
use thumbnailer::thumbnail::{
    generate_thumbnail, package_thumbnail, thumbnail_from_bytes, ThumbnailResponse,
};

/// PNG bytes of a solid-color RGB image of the given dimensions.
fn png_bytes(width: u32, height: u32) -> Vec<u8> {
    let buf = image::RgbImage::from_pixel(width, height, image::Rgb([40u8, 120u8, 200u8]));
    let img = image::DynamicImage::ImageRgb8(buf);
    let mut bytes: Vec<u8> = Vec::new();
    img.write_to(&mut Cursor::new(&mut bytes), image::ImageOutputFormat::Png)
        .expect("encoding a PNG in memory should succeed");
    bytes
}

fn generate_ok(width: u32, height: u32) -> ThumbnailResponse {
    match thumbnail_from_bytes(&png_bytes(width, height)) {
        Ok(t) => t,
        Err(e) => panic!("expected a thumbnail, got error: {:?}", e),
    }
}

#[test]
fn square_image_yields_square_thumbnail() {
    let t = generate_ok(500, 500);
    assert_eq!(t.width, 100);
    assert_eq!(t.height, 100);
}

#[test]
fn tiny_square_image_yields_square_thumbnail() {
    let t = generate_ok(1, 1);
    assert_eq!(t.width, 100);
    assert_eq!(t.height, 100);
}

#[test]
fn wide_image_height_is_floored_ratio() {
    let t = generate_ok(400, 200);
    assert_eq!(t.width, 100);
    assert_eq!(t.height, 50);
}

#[test]
fn truncation_rounds_toward_zero() {
    // floor(100 * 100 / 333) == 30
    let t = generate_ok(333, 100);
    assert_eq!(t.width, 100);
    assert_eq!(t.height, 30);
}

#[test]
fn tall_image_height_exceeds_width() {
    let t = generate_ok(100, 400);
    assert_eq!(t.width, 100);
    assert_eq!(t.height, 400);
}

#[test]
fn non_image_bytes_yield_decode_error() {
    let bytes = b"this is not an image, whatever its name says".to_vec();
    let r = thumbnail_from_bytes(&bytes);
    assert!(matches!(r, Err(ThumbnailError::DecodeError(_))));
}

#[test]
fn empty_bytes_yield_decode_error() {
    let r = thumbnail_from_bytes(&[]);
    assert!(matches!(r, Err(ThumbnailError::DecodeError(_))));
}

#[test]
fn missing_file_yields_load_error() {
    let cause = String::from("No such file or directory (os error 2)");
    let r = generate_thumbnail(Err(cause.clone()));
    match r {
        Err(ThumbnailError::LoadError(c)) => assert_eq!(c, cause),
        other => panic!("expected a LoadError, got: {:?}", other),
    }
}

#[test]
fn loaded_bytes_go_through_the_pipeline() {
    let r = generate_thumbnail(Ok(png_bytes(400, 200)));
    match r {
        Ok(t) => {
            assert_eq!(t.width, 100);
            assert_eq!(t.height, 50);
        }
        Err(e) => panic!("expected a thumbnail, got error: {:?}", e),
    }
}

#[test]
fn extremely_wide_image_yields_resize_error() {
    // floor(100 * 1 / 10000) == 0: a degenerate target geometry.
    let r = thumbnail_from_bytes(&png_bytes(10000, 1));
    match r {
        Err(ThumbnailError::ResizeError(c)) => {
            assert_eq!(c.as_str(), "derived target height is out of range")
        }
        other => panic!("expected a ResizeError, got: {:?}", other),
    }
}

#[test]
fn target_too_tall_for_jpeg_yields_encode_error() {
    // floor(100 * 656 / 1) == 65600, above the largest dimension a JPEG
    // stream can carry, so the encoding stage is the one that fails.
    let r = thumbnail_from_bytes(&png_bytes(1, 656));
    assert!(matches!(r, Err(ThumbnailError::EncodeError(_))));
}

#[test]
fn data_url_round_trips_to_an_image_of_the_reported_size() {
    let t = generate_ok(300, 150);
    let prefix = "data:image/jpeg;base64,";
    assert!(t.data_url.starts_with(prefix));
    let payload = &t.data_url[prefix.len()..];
    let jpeg = base64::decode(payload).expect("the payload must be valid base64");
    let decoded = image::load_from_memory(&jpeg).expect("the payload must decode as an image");
    let dims = image::GenericImageView::dimensions(&decoded);
    assert_eq!(dims, (t.width, t.height));
    assert_eq!(dims, (100, 50));
}

#[test]
fn generation_is_idempotent_in_reported_geometry() {
    let bytes = png_bytes(640, 480);
    let t1 = match thumbnail_from_bytes(&bytes) {
        Ok(t) => t,
        Err(e) => panic!("expected a thumbnail, got error: {:?}", e),
    };
    let t2 = match thumbnail_from_bytes(&bytes) {
        Ok(t) => t,
        Err(e) => panic!("expected a thumbnail, got error: {:?}", e),
    };
    assert_eq!(t1.width, t2.width);
    assert_eq!(t1.height, t2.height);
    assert_eq!(t1.data_url, t2.data_url);
}

#[test]
fn packaging_base64_encodes_the_payload() {
    let t = package_thumbnail(&vec![1u8, 2u8, 3u8], 10, 20);
    assert_eq!(t.data_url, "data:image/jpeg;base64,AQID");
    assert_eq!(t.width, 10);
    assert_eq!(t.height, 20);
}

#[test]
fn error_messages_name_the_failing_stage() {
    let load = ThumbnailError::LoadError(String::from("gone"));
    assert_eq!(load.message(), "Failed to open image: gone");
    assert_eq!(load.cause().as_str(), "gone");
    let decode = ThumbnailError::DecodeError(String::from("bad magic"));
    assert_eq!(decode.message(), "Failed to decode image: bad magic");
    let resize = ThumbnailError::ResizeError(String::from("zero height"));
    assert_eq!(resize.message(), "Failed to resize image: zero height");
    let encode = ThumbnailError::EncodeError(String::from("bad layout"));
    assert_eq!(encode.message(), "Failed to encode thumbnail: bad layout");
}
