//! Trusted boundary to the outside image codec: decoding bytes into a
//! raster, resampling it to an exact size, and serializing it as JPEG.
//! The raster type is opaque here; every stage is deterministic in its
//! arguments, so each stage's result is given a name, and the wrappers'
//! contracts are stated over those names.

use vstd::prelude::*;

verus! {

#[verifier::external_type_specification]
#[verifier::external_body]
pub struct ExDynamicImage(image::DynamicImage);

/// The raster that a byte sequence decodes to: `None` when the bytes are
/// not a recognized, valid image encoding. Decoding is a pure function of
/// the bytes; its result is only named here.
pub uninterp spec fn decoded_raster(bytes: Seq<u8>) -> Option<image::DynamicImage>;

/// The `(width, height)` of a raster, as the codec reports it.
pub uninterp spec fn raster_dims(img: image::DynamicImage) -> (u32, u32);

/// The display string of the error produced when a byte sequence does not
/// decode; deterministic in the bytes.
pub uninterp spec fn decode_error_text(bytes: Seq<u8>) -> Seq<char>;

/// The raster produced by resampling `img` to exactly `width x height`
/// pixels with the fixed 3-lobe Lanczos filter; deterministic in its
/// arguments within one build (the kernel uses the platform's `f32::sin`,
/// so the pixel values, though not the dimensions, may differ across
/// platforms).
pub uninterp spec fn resized_raster(img: image::DynamicImage, width: u32, height: u32) -> image::DynamicImage;

/// The JPEG stream that serializing `img` at the given quality produces,
/// or `None` when the codec refuses the raster (an unsupported pixel
/// layout, or a dimension the format cannot carry); deterministic in its
/// arguments.
pub uninterp spec fn jpeg_outcome(img: image::DynamicImage, quality: u8) -> Option<Seq<u8>>;

/// The display string of the error produced when serializing `img` at the
/// given quality fails; deterministic in its arguments.
pub uninterp spec fn jpeg_error_text(img: image::DynamicImage, quality: u8) -> Seq<char>;

/// The observable outcome of decoding a byte sequence: `None` when the
/// bytes do not decode, and otherwise the decoded raster's dimensions.
pub open spec fn decoded_dims(bytes: Seq<u8>) -> Option<(u32, u32)> {
    match decoded_raster(bytes) {
        Some(img) => Some(raster_dims(img)),
        None => None,
    }
}

/// Relies on `image::load_from_memory` (decoding is deterministic in the
/// bytes) and on `GenericImageView::dimensions` for the decoded raster's
/// size. On failure the outside error is turned into its display string.
#[verifier::external_body]
pub fn decode_image(bytes: &[u8]) -> (r: Result<(image::DynamicImage, u32, u32), String>)
    ensures
        r is Ok <==> decoded_raster(bytes@) is Some,
        r matches Ok(d) ==> decoded_raster(bytes@) == Some(d.0) && raster_dims(d.0) == (d.1, d.2),
        r matches Err(c) ==> c@ == decode_error_text(bytes@),
{
    match image::load_from_memory(bytes) {
        Ok(img) => {
            let (w, h) = image::GenericImageView::dimensions(&img);
            Ok((img, w, h))
        },
        Err(e) => Err(e.to_string()),
    }
}

/// Relies on `DynamicImage::resize_exact` with `FilterType::Lanczos3`:
/// resamples the raster to exactly `width x height` pixels with a 3-lobe
/// windowed-sinc filter, stretching as needed (no cropping), so the
/// result's dimensions are exactly the requested ones.
#[verifier::external_body]
pub fn resize_lanczos(img: &image::DynamicImage, width: u32, height: u32) -> (r:
    image::DynamicImage)
    requires
        width > 0,
        height > 0,
    ensures
        r == resized_raster(*img, width, height),
        raster_dims(r) == (width, height),
{
    img.resize_exact(width, height, image::imageops::FilterType::Lanczos3)
}

/// Relies on `DynamicImage::write_to` with `ImageOutputFormat::Jpeg`:
/// serializes the raster as a JPEG stream at the given quality into an
/// in-memory buffer, or reports why it could not (for instance a pixel
/// layout or a dimension the format does not support). For a raster with
/// both dimensions positive — a zero dimension is excluded, since the
/// encoder would accept it but emit a stream no decoder reads back — the
/// emitted stream is well-formed: the crate's own decoder reads it back
/// as an image of the raster's dimensions.
#[verifier::external_body]
pub fn encode_jpeg(img: &image::DynamicImage, quality: u8) -> (r: Result<Vec<u8>, String>)
    requires
        raster_dims(*img).0 >= 1,
        raster_dims(*img).1 >= 1,
    ensures
        r is Ok <==> jpeg_outcome(*img, quality) is Some,
        r matches Ok(b) ==> jpeg_outcome(*img, quality) == Some(b@) && decoded_dims(b@) == Some(
            raster_dims(*img),
        ),
        r matches Err(c) ==> c@ == jpeg_error_text(*img, quality),
{
    let mut bytes: Vec<u8> = Vec::new();
    let out = img.write_to(
        &mut std::io::Cursor::new(&mut bytes),
        image::ImageOutputFormat::Jpeg(quality),
    );
    match out {
        Ok(()) => Ok(bytes),
        Err(e) => Err(e.to_string()),
    }
}

} // verus!
