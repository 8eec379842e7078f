//! The resizer: turns the bytes of a source image into the bytes of a
//! JPEG of the exact requested dimensions, with fill semantics (scale,
//! then crop from the center; no letterboxing). The whole decode, resize
//! and encode chain is one call into the `image` crate behind a trusted
//! wrapper; its outcome and its output are deterministic functions of the
//! source bytes, the dimensions and the filter choice, and the contracts
//! name them as such. The choice of resampling filter and the mapping of
//! faults to error categories are verified here. The image library is
//! built with the JPEG codec alone, deliberately: the catalog's sources
//! and the output format are JPEG, and a source of any other format is a
//! catalog misconfiguration, reported as such rather than served. No
//! filesystem access happens in this module: callers hand in the source
//! bytes and receive the output bytes.

use vstd::prelude::*;

use crate::error::ServeError;
use crate::selector::spec_use_fast_filter;
use crate::selector::use_fast_filter;
use crate::selector::MAX_DIMENSION_SUM;

verus! {

/// What went wrong inside the image library, by category. Mirrors the
/// fault classes the library reports, stripped of their payloads.
#[derive(Clone, Copy, Debug, PartialEq, Eq, Structural)]
pub enum ImageFault {
    /// The input bytes do not form a decodable image.
    Decoding,
    /// The image could not be encoded in the output format.
    Encoding,
    /// An input stream ended early or could not be read.
    IoFailure,
    /// A resource limit was hit.
    Limits,
    /// An argument was malformed at the library level.
    Parameter,
    /// The operation is not supported by the library as built.
    Unsupported,
}

/// Declares the image library's error type; its values are opaque here
/// and are only told apart by the trusted conversion below.
#[verifier::external_type_specification]
#[verifier::external_body]
pub struct ExImageError(image::ImageError);

/// Whether the image library can decode these bytes: a function of the
/// bytes alone.
pub uninterp spec fn decodes_ok(bytes: Seq<u8>) -> bool;

/// Whether the decode, resize-to-fill and JPEG-encode chain succeeds: a
/// function of the source bytes, the target dimensions and the filter
/// choice alone.
pub uninterp spec fn renders_ok(source: Seq<u8>, width: u32, height: u32, fast: bool) -> bool;

/// The bytes the decode, resize-to-fill and JPEG-encode chain produces
/// when it succeeds: a function of the source bytes, the target
/// dimensions and the filter choice alone.
pub uninterp spec fn rendered_of(source: Seq<u8>, width: u32, height: u32, fast: bool) -> Seq<
    u8,
>;

/// Relies on image::load_from_memory, DynamicImage::resize_to_fill and
/// DynamicImage::write_to with the JPEG format at the default quality:
/// decodes the source bytes, scales them preserving aspect ratio to cover
/// (width, height) — with FilterType::Nearest when fast, else
/// FilterType::CatmullRom — crops from the center to exactly those
/// dimensions, and encodes the result in memory. Each step is a
/// deterministic function of its arguments, so the chain's outcome and
/// output are functions of the arguments alone; the chain fails whenever
/// the bytes do not decode.
#[verifier::external_body]
fn render_with_filter(source: &Vec<u8>, width: u32, height: u32, fast: bool) -> (r: Result<
    Vec<u8>,
    image::ImageError,
>)
    requires
        width + height <= MAX_DIMENSION_SUM,
    ensures
        r is Ok <==> renders_ok(source@, width, height, fast),
        r is Ok ==> r.unwrap()@ == rendered_of(source@, width, height, fast),
        r is Ok ==> decodes_ok(source@),
        !decodes_ok(source@) ==> r is Err,
{
    let filter = if fast {
        image::imageops::FilterType::Nearest
    } else {
        image::imageops::FilterType::CatmullRom
    };
    let resized = image::load_from_memory(source.as_slice())?.resize_to_fill(
        width, height, filter,
    );
    let mut buf: Vec<u8> = Vec::new();
    resized.write_to(&mut std::io::Cursor::new(&mut buf), image::ImageOutputFormat::Jpeg(75))?;
    Ok(buf)
}

/// Relies on the image library's error enum alone: tells its six
/// variants apart, one arm each, dropping their payloads.
#[verifier::external_body]
fn fault_of(e: &image::ImageError) -> ImageFault {
    match e {
        image::ImageError::Decoding(_) => ImageFault::Decoding,
        image::ImageError::Encoding(_) => ImageFault::Encoding,
        image::ImageError::IoError(_) => ImageFault::IoFailure,
        image::ImageError::Limits(_) => ImageFault::Limits,
        image::ImageError::Parameter(_) => ImageFault::Parameter,
        image::ImageError::Unsupported(_) => ImageFault::Unsupported,
    }
}

/// The error category each image-library fault is reported as. In this
/// pipeline an I/O fault can only arise while reading the source bytes —
/// the in-memory output sink cannot fail — so it means the source is
/// unreadable or corrupt; encoder failures are output errors; limits and
/// malformed or unsupported parameters are unsupported operations.
pub open spec fn spec_classify_fault(fault: ImageFault) -> ServeError {
    match fault {
        ImageFault::Decoding => ServeError::DecodeError,
        ImageFault::IoFailure => ServeError::DecodeError,
        ImageFault::Encoding => ServeError::EncodeError,
        ImageFault::Limits => ServeError::UnsupportedOperation,
        ImageFault::Parameter => ServeError::UnsupportedOperation,
        ImageFault::Unsupported => ServeError::UnsupportedOperation,
    }
}

/// Maps an image-library fault to the caller-facing error category.
pub fn classify_fault(fault: ImageFault) -> (r: ServeError)
    ensures
        r == spec_classify_fault(fault),
{
    match fault {
        ImageFault::Decoding => ServeError::DecodeError,
        ImageFault::IoFailure => ServeError::DecodeError,
        ImageFault::Encoding => ServeError::EncodeError,
        ImageFault::Limits => ServeError::UnsupportedOperation,
        ImageFault::Parameter => ServeError::UnsupportedOperation,
        ImageFault::Unsupported => ServeError::UnsupportedOperation,
    }
}

/// The renderer's outcome, pinned as a function of its inputs: it
/// succeeds exactly when the chain under the threshold-chosen filter
/// succeeds, and then returns that chain's bytes.
pub open spec fn render_matches(
    r: Result<Vec<u8>, ServeError>,
    source: Seq<u8>,
    width: u32,
    height: u32,
) -> bool {
    &&& r is Ok <==> renders_ok(source, width, height, spec_use_fast_filter(width, height))
    &&& r is Ok ==> r.unwrap()@ == rendered_of(
        source,
        width,
        height,
        spec_use_fast_filter(width, height),
    )
}

/// Decodes the source bytes, resizes to exactly (width, height) with fill
/// semantics — using the fast filter when width + height is above the
/// threshold and the higher-quality one otherwise — and returns the JPEG
/// encoding of the result. Succeeds exactly when the chain under that
/// filter succeeds, never on undecodable bytes; every fault of the image
/// library is reported as its error category, never as InvalidInput.
pub fn render_jpeg(source: &Vec<u8>, width: u32, height: u32) -> (r: Result<Vec<u8>, ServeError>)
    requires
        width + height <= MAX_DIMENSION_SUM,
    ensures
        render_matches(r, source@, width, height),
        r is Ok ==> decodes_ok(source@),
        !decodes_ok(source@) ==> r is Err,
        r is Err ==> r.unwrap_err() != ServeError::InvalidInput,
{
    let fast = use_fast_filter(width, height);
    match render_with_filter(source, width, height, fast) {
        Ok(bytes) => Ok(bytes),
        Err(e) => Err(classify_fault(fault_of(&e))),
    }
}

/// Law: rendering is deterministic. Two render outcomes for the same
/// source bytes and dimensions agree on success, and on success their
/// output bytes are identical; with plan determinism, repeated identical
/// requests write identical content to the same path.
pub proof fn lemma_render_deterministic(
    r1: Result<Vec<u8>, ServeError>,
    r2: Result<Vec<u8>, ServeError>,
    source: Seq<u8>,
    width: u32,
    height: u32,
)
    requires
        render_matches(r1, source, width, height),
        render_matches(r2, source, width, height),
    ensures
        r1 is Ok <==> r2 is Ok,
        r1 is Ok ==> r1.unwrap()@ == r2.unwrap()@,
{
}

} // verus!
