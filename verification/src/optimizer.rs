//! The adapter around the external PNG optimizer: a lossless recompression
//! of an already-encoded PNG byte stream, tuned by a preset level, an
//! interlacing choice and permission to alter fully transparent pixels.

use vstd::prelude::*;

use crate::codec::decode_of;
use crate::error::TransformError;
use crate::raster::opaque_raster;

verus! {

/// What the PNG optimizer yields for a byte stream and a configuration, or
/// nothing when it rejects the stream. The optimizer is deterministic: the
/// same bytes and configuration always produce the same result.
pub uninterp spec fn optimized_of(
    data: Seq<u8>,
    level: u8,
    interlace: bool,
    optimize_alpha: bool,
) -> Option<Seq<u8>>;

/// Relies on oxipng::optimize_from_memory, with options built by
/// oxipng::Options::from_preset(level) and the interlace and optimize_alpha
/// fields set from the arguments. With the default force flag the optimizer
/// returns its input whenever recompression would grow it, so the result is
/// never larger than the input. The recompression is lossless: the result
/// decodes to the same dimensions, and to the same raster unless the
/// optimizer was allowed to alter fully transparent pixels and the input
/// has some; a fully opaque input round-trips exactly either way.
#[verifier::external_body]
fn oxipng_optimize(data: &[u8], level: u8, interlace: bool, optimize_alpha: bool) -> (r: Result<
    Vec<u8>,
    TransformError,
>)
    ensures
        r is Ok <==> optimized_of(data@, level, interlace, optimize_alpha) is Some,
        r matches Ok(v) ==> Some(v@) == optimized_of(data@, level, interlace, optimize_alpha)
            && v@.len() <= data@.len(),
        r matches Ok(v) ==> (decode_of(data@) matches Some(t) ==> (decode_of(v@) matches Some(u)
            && u.0 == t.0 && u.1 == t.1 && (!optimize_alpha ==> u.2 == t.2) && (opaque_raster(t.2)
            ==> u.2 == t.2))),
        r matches Err(e) ==> e == TransformError::OptimizationFailure,
{
    let mut options = oxipng::Options::from_preset(level);
    options.interlace = Some(interlace);
    options.optimize_alpha = optimize_alpha;
    match oxipng::optimize_from_memory(data, &options) {
        Ok(v) => Ok(v),
        Err(_) => Err(TransformError::OptimizationFailure),
    }
}

/// Recompresses an already-encoded PNG byte stream. The result is never
/// larger than the input and decodes to the same dimensions; it decodes to
/// the same raster when optimize_alpha keeps transparent pixels untouched,
/// and also whenever the input is fully opaque. Applying the optimizer to
/// its own output therefore never grows the stream either.
pub fn optimise_png(data: &[u8], level: u8, interlace: bool, optimize_alpha: bool) -> (r: Result<
    Vec<u8>,
    TransformError,
>)
    ensures
        r is Ok <==> optimized_of(data@, level, interlace, optimize_alpha) is Some,
        r matches Ok(v) ==> Some(v@) == optimized_of(data@, level, interlace, optimize_alpha)
            && v@.len() <= data@.len(),
        r matches Ok(v) ==> (decode_of(data@) matches Some(t) ==> (decode_of(v@) matches Some(u)
            && u.0 == t.0 && u.1 == t.1 && (!optimize_alpha ==> u.2 == t.2) && (opaque_raster(t.2)
            ==> u.2 == t.2))),
        r matches Err(e) ==> e == TransformError::OptimizationFailure,
{
    oxipng_optimize(data, level, interlace, optimize_alpha)
}

} // verus!
