//! The bilinear sampling footprint rule of the rectification engine.
//!
//! For each destination pixel the caller's ray mathematics yields a
//! fractional source location; its integer part `(iu_min, iv_min)` is
//! the top-left corner of the two-by-two footprint that bilinear
//! resampling reads.  The engine resamples only when all four corners
//! lie inside the source image.  A footprint with any corner outside —
//! even three valid corners, or a location pushed to an arbitrarily
//! large magnitude because the ray points behind the camera — makes the
//! destination pixel the transparent zero pixel: no clamping to the
//! nearest edge and no wraparound.

use vstd::prelude::*;

use crate::frame::Frame;
use crate::pixel::Rgba;

verus! {

/// The two-by-two footprint with top-left corner `(iu_min, iv_min)` lies
/// wholly inside a `width`-by-`height` image: columns `iu_min` and
/// `iu_min + 1` and rows `iv_min` and `iv_min + 1` all exist.
pub open spec fn corner_window_in_bounds(
    iu_min: int,
    iv_min: int,
    width: int,
    height: int,
) -> bool {
    &&& 0 <= iu_min
    &&& iu_min + 1 < width
    &&& 0 <= iv_min
    &&& iv_min + 1 < height
}

/// Where a destination pixel draws its value from.
#[derive(Clone, Copy, Debug, PartialEq, Eq, Structural)]
pub enum SampleSpot {
    /// All four footprint corners exist; blend around this top-left corner.
    Inside { iu: usize, iv: usize },
    /// Some footprint corner is missing; the pixel is zeroed.
    Outside,
}

/// Classifies the footprint at `(iu_min, iv_min)` against a
/// `width`-by-`height` source image.  The footprint is usable exactly
/// when all four of its corners lie inside the image.
pub fn locate_corners(iu_min: i64, iv_min: i64, width: usize, height: usize) -> (spot: SampleSpot)
    ensures
        spot is Inside <==> corner_window_in_bounds(
            iu_min as int,
            iv_min as int,
            width as int,
            height as int,
        ),
        spot matches SampleSpot::Inside { iu, iv } ==> iu == iu_min && iv == iv_min,
{
    let iu_fits = iu_min >= 0 && (iu_min as u64) < (width as u64);
    let iv_fits = iv_min >= 0 && (iv_min as u64) < (height as u64);
    if iu_fits && iv_fits {
        let iu: usize = iu_min as usize;
        let iv: usize = iv_min as usize;
        if iu + 1 < width && iv + 1 < height {
            SampleSpot::Inside { iu, iv }
        } else {
            SampleSpot::Outside
        }
    } else {
        SampleSpot::Outside
    }
}

/// Applies the out-of-bounds policy: a pixel whose footprint lies inside
/// the source keeps the blended value handed in, and any other pixel
/// becomes the transparent zero pixel, never a clamped edge value.
pub fn resolve_sample(spot: SampleSpot, blended: Rgba) -> (p: Rgba)
    ensures
        spot is Inside ==> p == blended,
        spot is Outside ==> p.is_zero(),
{
    match spot {
        SampleSpot::Inside { .. } => blended,
        SampleSpot::Outside => Rgba::transparent(),
    }
}

/// Gathers the four source neighbours of the footprint at
/// `(iu_min, iv_min)` — top-left, top-right, bottom-left, bottom-right —
/// or reports that the footprint leaves the image.
pub fn sample_quad(src: &Frame, iu_min: i64, iv_min: i64) -> (q: Option<(Rgba, Rgba, Rgba, Rgba)>)
    requires
        src.wf(),
    ensures
        q is Some <==> corner_window_in_bounds(
            iu_min as int,
            iv_min as int,
            src.width as int,
            src.height as int,
        ),
        q matches Some(quad) ==> {
            &&& quad.0 == src.pix(iv_min as int, iu_min as int)
            &&& quad.1 == src.pix(iv_min as int, iu_min as int + 1)
            &&& quad.2 == src.pix(iv_min as int + 1, iu_min as int)
            &&& quad.3 == src.pix(iv_min as int + 1, iu_min as int + 1)
        },
{
    match locate_corners(iu_min, iv_min, src.width, src.height) {
        SampleSpot::Inside { iu, iv } => Some(src.gather_quad(iu, iv)),
        SampleSpot::Outside => None,
    }
}

} // verus!
