//! The thumbnail pipeline: decode, derive the target geometry, resample,
//! encode as JPEG, and package the bytes as a `data:` URI together with
//! the final dimensions.

use vstd::prelude::*;
use vstd::string::StringExecFns;
use crate::codec::{base64_char, base64_encode, base64_of};
use crate::errors::ThumbnailError;
use crate::geometry::{scaled_height, target_height, TARGET_WIDTH};
use crate::imgops::{
    decode_error_text, decode_image, decoded_dims, decoded_raster, encode_jpeg, jpeg_error_text,
    jpeg_outcome, raster_dims, resize_lanczos, resized_raster,
};

verus! {

/// Fixed quality, out of 100, of the JPEG stream every thumbnail is
/// encoded to.
pub const JPEG_QUALITY: u8 = 90;

/// The value returned for a successful request: a self-contained
/// `data:` URI and the thumbnail's pixel dimensions.
#[derive(Debug)]
pub struct ThumbnailResponse {
    pub data_url: String,
    pub width: u32,
    pub height: u32,
}

/// The MIME prefix every returned `data_url` starts with.
pub open spec fn data_url_prefix() -> Seq<char> {
    "data:image/jpeg;base64,"@
}

/// A syntactically valid `data:` URI as this library emits it: the MIME
/// prefix, followed by whole four-character groups of base64 alphabet and
/// padding characters.
pub open spec fn valid_data_url(s: Seq<char>) -> bool {
    &&& s.len() >= data_url_prefix().len()
    &&& s.subrange(0, data_url_prefix().len() as int) == data_url_prefix()
    &&& (s.len() - data_url_prefix().len()) % 4 == 0
    &&& forall|i: int|
        data_url_prefix().len() <= i < s.len() ==> base64_char(#[trigger] s[i])
}

/// The height of the thumbnail derived for a source of the given
/// dimensions: the fixed target width divided by the source's aspect
/// ratio, truncated toward zero.
pub open spec fn thumb_height_of(dims: (u32, u32)) -> int {
    scaled_height(dims.0 as int, dims.1 as int, TARGET_WIDTH as int)
}

/// Whether a source of the given dimensions admits a representable,
/// non-degenerate target geometry: the derived height must be at least 1
/// and fit the pixel-dimension type.
pub open spec fn resizable(dims: (u32, u32)) -> bool {
    dims.0 > 0 && 1 <= thumb_height_of(dims) <= u32::MAX
}

/// The cause string reported when the target geometry is degenerate.
pub open spec fn resize_cause(dims: (u32, u32)) -> Seq<char> {
    if dims.0 == 0 {
        "source image has zero width"@
    } else {
        "derived target height is out of range"@
    }
}

/// How the outcome of one generation call relates to the source bytes,
/// stage by stage and fail-fast: bytes that do not decode give a
/// `DecodeError` carrying the decoder's message; a degenerate geometry
/// gives a `ResizeError` naming the defect; after that the call succeeds
/// if and only if the JPEG codec accepts the Lanczos-resampled raster,
/// failure carrying the codec's message, and success carrying the derived
/// dimensions and a well-formed `data:` URI whose payload is exactly the
/// base64 encoding of that JPEG stream — a stream that decodes back to
/// the reported dimensions.
pub open spec fn generation_outcome(bytes: Seq<u8>, r: Result<
    ThumbnailResponse,
    ThumbnailError,
>) -> bool {
    match decoded_raster(bytes) {
        None => r matches Err(e) && e matches ThumbnailError::DecodeError(c) && c@
            == decode_error_text(bytes),
        Some(img) => {
            let dims = raster_dims(img);
            if !resizable(dims) {
                r matches Err(e) && e matches ThumbnailError::ResizeError(c) && c@ == resize_cause(
                    dims,
                )
            } else {
                let thumb = resized_raster(img, TARGET_WIDTH, thumb_height_of(dims) as u32);
                match jpeg_outcome(thumb, JPEG_QUALITY) {
                    None => r matches Err(e) && e matches ThumbnailError::EncodeError(c) && c@
                        == jpeg_error_text(thumb, JPEG_QUALITY),
                    Some(jpeg) => r matches Ok(t) && t.width == TARGET_WIDTH && t.height
                        == thumb_height_of(dims) && t.data_url@ == data_url_prefix() + base64_of(
                        jpeg,
                    ) && decoded_dims(jpeg) == Some((TARGET_WIDTH, thumb_height_of(dims) as u32))
                        && valid_data_url(t.data_url@),
                }
            }
        },
    }
}

/// What a successful response for the given source bytes holds.
pub open spec fn ok_response_for(bytes: Seq<u8>, t: ThumbnailResponse) -> bool {
    generation_outcome(bytes, Ok(t))
}

/// Package an encoded byte stream and its dimensions as a response whose
/// `data_url` is the MIME prefix followed by the stream's base64
/// encoding, and a syntactically valid `data:` URI.
pub fn package_thumbnail(jpeg: &Vec<u8>, width: u32, height: u32) -> (t: ThumbnailResponse)
    ensures
        t.width == width,
        t.height == height,
        t.data_url@ == data_url_prefix() + base64_of(jpeg@),
        valid_data_url(t.data_url@),
{
    let payload = base64_encode(jpeg.as_slice());
    let data_url = String::from_str("data:image/jpeg;base64,").concat(payload.as_str());
    proof {
        assert(data_url@.subrange(0, data_url_prefix().len() as int) =~= data_url_prefix());
        vstd::arithmetic::div_mod::lemma_mod_multiples_basic(
            ((jpeg@.len() + 2) / 3) as int,
            4int,
        );
        assert((data_url@.len() - data_url_prefix().len()) % 4 == 0);
    }
    ThumbnailResponse { data_url, width, height }
}

/// Generate a thumbnail from the raw bytes of an image file: decode,
/// derive the target geometry, resample with the Lanczos filter, encode
/// as JPEG at the fixed quality, and package as a `data:` URI.
pub fn thumbnail_from_bytes(bytes: &[u8]) -> (r: Result<ThumbnailResponse, ThumbnailError>)
    ensures
        generation_outcome(bytes@, r),
{
    let decoded = decode_image(bytes);
    match decoded {
        Err(cause) => Err(ThumbnailError::DecodeError(cause)),
        Ok((img, src_w, src_h)) => {
            if src_w == 0 {
                return Err(
                    ThumbnailError::ResizeError(
                        String::from_str("source image has zero width"),
                    ),
                );
            }
            let h64 = target_height(src_w, src_h);
            if h64 == 0 || h64 > 0xffff_ffffu64 {
                return Err(
                    ThumbnailError::ResizeError(
                        String::from_str("derived target height is out of range"),
                    ),
                );
            }
            let height = h64 as u32;
            let thumb = resize_lanczos(&img, TARGET_WIDTH, height);
            match encode_jpeg(&thumb, JPEG_QUALITY) {
                Err(cause) => Err(ThumbnailError::EncodeError(cause)),
                Ok(jpeg) => Ok(package_thumbnail(&jpeg, TARGET_WIDTH, height)),
            }
        },
    }
}

/// Law: a square source yields a square thumbnail. Whenever the source
/// bytes decode to an `n x n` raster and a response is produced for them,
/// its reported width and height both equal the fixed target width.
pub proof fn lemma_square_source(bytes: Seq<u8>, n: u32, t: ThumbnailResponse)
    requires
        decoded_dims(bytes) == Some((n, n)),
        n > 0,
        ok_response_for(bytes, t),
    ensures
        t.width == TARGET_WIDTH,
        t.height == TARGET_WIDTH,
{
    vstd::arithmetic::div_mod::lemma_div_multiples_vanish(TARGET_WIDTH as int, n as int);
    assert((TARGET_WIDTH as int) * (n as int) == (n as int) * (TARGET_WIDTH as int));
}

/// Law: the reported height preserves the source's aspect ratio. Whenever
/// the source bytes decode to an `a x b` raster and a response is
/// produced for them, its reported height is `floor(TARGET_WIDTH * b / a)`,
/// truncated toward zero.
pub proof fn lemma_aspect_ratio_height(bytes: Seq<u8>, a: u32, b: u32, t: ThumbnailResponse)
    requires
        decoded_dims(bytes) == Some((a, b)),
        a > 0,
        ok_response_for(bytes, t),
    ensures
        t.height == ((TARGET_WIDTH as int) * (b as int)) / (a as int),
{
}

/// Law: the payload round-trips. A produced response's `data_url` is a
/// valid `data:` URI whose payload is the base64 encoding of a byte
/// stream that itself decodes to exactly the reported dimensions.
pub proof fn lemma_round_trip(bytes: Seq<u8>, t: ThumbnailResponse)
    requires
        ok_response_for(bytes, t),
    ensures
        valid_data_url(t.data_url@),
        exists|jpeg: Seq<u8>|
            t.data_url@ == data_url_prefix() + base64_of(jpeg) && decoded_dims(jpeg) == Some(
                (t.width, t.height),
            ),
{
}

/// Law: generation is deterministic in the source bytes. Two outcomes for
/// the same bytes agree on success; two responses report the same
/// dimensions and the very same `data_url`; two failures are of the same
/// kind and carry the same cause. The named stage results the proof rests
/// on are per-build: the resampler's pixel values may differ across
/// platforms, so this law relates calls within one build.
pub proof fn lemma_generation_deterministic(
    bytes: Seq<u8>,
    r1: Result<ThumbnailResponse, ThumbnailError>,
    r2: Result<ThumbnailResponse, ThumbnailError>,
)
    requires
        generation_outcome(bytes, r1),
        generation_outcome(bytes, r2),
    ensures
        r1 is Ok <==> r2 is Ok,
        match (r1, r2) {
            (Ok(t1), Ok(t2)) => t1.width == t2.width && t1.height == t2.height && t1.data_url@
                == t2.data_url@,
            (Err(e1), Err(e2)) => match (e1, e2) {
                (ThumbnailError::DecodeError(c1), ThumbnailError::DecodeError(c2)) => c1@ == c2@,
                (ThumbnailError::ResizeError(c1), ThumbnailError::ResizeError(c2)) => c1@ == c2@,
                (ThumbnailError::EncodeError(c1), ThumbnailError::EncodeError(c2)) => c1@ == c2@,
                _ => false,
            },
            _ => true,
        },
{
}

/// Generate a thumbnail from the outcome of reading the source file: a
/// read failure becomes a `LoadError` carrying the reader's cause, and
/// bytes that were read go through the byte pipeline unchanged.
pub fn generate_thumbnail(loaded: Result<Vec<u8>, String>) -> (r: Result<
    ThumbnailResponse,
    ThumbnailError,
>)
    ensures
        loaded matches Err(cause) ==> r matches Err(e) && e matches ThumbnailError::LoadError(c)
            && c == cause,
        loaded matches Ok(bytes) ==> generation_outcome(bytes@, r),
{
    match loaded {
        Err(cause) => Err(ThumbnailError::LoadError(cause)),
        Ok(bytes) => thumbnail_from_bytes(bytes.as_slice()),
    }
}

} // verus!
