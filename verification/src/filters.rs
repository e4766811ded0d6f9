//! The content filters a post must pass to become a download candidate.
//!
//! The aspect-ratio window is decided in exact rational arithmetic: an image
//! of size `w x h` is accepted when `w/h` lies within `range` thousandths of
//! `width_aspect / height_aspect`, both edges included.

use vstd::prelude::*;
use crate::config::{AspectRatio, MinimumSize};

verus! {

/// `1000 * w * ha`: the image ratio `w/h`, brought over the common
/// denominator `1000 * h * ha`.
pub open spec fn ratio_lhs(width: u32, height: u32, ar: AspectRatio) -> int {
    1000 * (width as int) * (ar.height_aspect as int)
}

/// The lower edge of the window over the same denominator:
/// `h * (1000 * wa - range * ha)`.
pub open spec fn ratio_lo(width: u32, height: u32, ar: AspectRatio) -> int {
    (height as int) * (1000 * (ar.width_aspect as int) - (ar.ratio_range as int) * (ar.height_aspect as int))
}

/// The upper edge of the window over the same denominator:
/// `h * (1000 * wa + range * ha)`.
pub open spec fn ratio_hi(width: u32, height: u32, ar: AspectRatio) -> int {
    (height as int) * (1000 * (ar.width_aspect as int) + (ar.ratio_range as int) * (ar.height_aspect as int))
}

/// Whether an image passes the aspect-ratio filter: either the filter is
/// off, or `w/h` lies within the inclusive window around the target ratio.
/// An image or target with height zero has no ratio and never passes an
/// enabled filter.
pub open spec fn aspect_ratio_ok(width: u32, height: u32, ar: AspectRatio) -> bool {
    if !ar.enable {
        true
    } else {
        height > 0 && ar.height_aspect > 0 && ratio_lo(width, height, ar) <= ratio_lhs(
            width,
            height,
            ar,
        ) <= ratio_hi(width, height, ar)
    }
}

/// Whether an image passes the minimum-size filter: either the filter is
/// off, or both dimensions reach their inclusive minimum.
pub open spec fn minimum_size_ok(width: u32, height: u32, ms: MinimumSize) -> bool {
    !ms.enable || (width >= ms.minimum_width && height >= ms.minimum_height)
}

/// Decide the aspect-ratio filter for one image.
pub fn passed_aspect_ratio(width: u32, height: u32, ar: &AspectRatio) -> (r: bool)
    ensures
        r == aspect_ratio_ok(width, height, *ar),
{
    if !ar.enable {
        return true;
    }
    if height == 0 || ar.height_aspect == 0 {
        return false;
    }
    let w = width as i128;
    let h = height as i128;
    let wa = ar.width_aspect as i128;
    let ha = ar.height_aspect as i128;
    let m = ar.ratio_range as i128;
    proof {
        let b: int = 0xffff_ffff;
        assert(1000 * w * ha <= 1000 * b * b && 1000 * w * ha >= 0) by (nonlinear_arith)
            requires
                0 <= w <= b,
                0 <= ha <= b,
        ;
        assert(m * ha <= b * b && m * ha >= 0) by (nonlinear_arith)
            requires
                0 <= m <= b,
                0 <= ha <= b,
        ;
        assert(h * (1000 * wa - m * ha) <= b * (1000 * b) && h * (1000 * wa - m * ha) >= b * (-(b
            * b))) by (nonlinear_arith)
            requires
                0 <= h <= b,
                0 <= wa <= b,
                0 <= m * ha <= b * b,
        ;
        assert(h * (1000 * wa + m * ha) <= b * (1000 * b + b * b) && h * (1000 * wa + m * ha) >= 0)
            by (nonlinear_arith)
            requires
                0 <= h <= b,
                0 <= wa <= b,
                0 <= m * ha <= b * b,
        ;
    }
    let lhs: i128 = 1000 * w * ha;
    let lo: i128 = h * (1000 * wa - m * ha);
    let hi: i128 = h * (1000 * wa + m * ha);
    lo <= lhs && lhs <= hi
}

/// Decide the minimum-size filter for one image.
pub fn passed_minimum_size(width: u32, height: u32, ms: &MinimumSize) -> (r: bool)
    ensures
        r == minimum_size_ok(width, height, *ms),
{
    if !ms.enable {
        return true;
    }
    width >= ms.minimum_width && height >= ms.minimum_height
}

/// An image whose ratio lies exactly on an edge of the tolerance window is
/// accepted: both edges are inclusive.
pub proof fn lemma_aspect_ratio_boundary_inclusive(width: u32, height: u32, ar: AspectRatio)
    requires
        ar.enable,
        height > 0,
        ar.height_aspect > 0,
        ratio_lhs(width, height, ar) == ratio_lo(width, height, ar) || ratio_lhs(width, height, ar)
            == ratio_hi(width, height, ar),
    ensures
        aspect_ratio_ok(width, height, ar),
{
    let h = height as int;
    let m = ar.ratio_range as int;
    let ha = ar.height_aspect as int;
    let x = 1000 * (ar.width_aspect as int);
    let y = m * ha;
    assert(y >= 0) by (nonlinear_arith)
        requires
            y == m * ha,
            m >= 0,
            ha >= 0,
    ;
    assert(h * (x - y) <= h * (x + y)) by (nonlinear_arith)
        requires
            h >= 0,
            y >= 0,
    ;
}

/// An image whose ratio lies strictly outside the tolerance window is
/// rejected when the filter is enabled.
pub proof fn lemma_aspect_ratio_outside_excluded(width: u32, height: u32, ar: AspectRatio)
    requires
        ar.enable,
        ratio_lhs(width, height, ar) < ratio_lo(width, height, ar) || ratio_lhs(width, height, ar)
            > ratio_hi(width, height, ar),
    ensures
        !aspect_ratio_ok(width, height, ar),
{
}

/// An image at exactly the configured minimum size is accepted: the
/// minimum is inclusive.
pub proof fn lemma_minimum_size_boundary_inclusive(ms: MinimumSize)
    ensures
        minimum_size_ok(ms.minimum_width, ms.minimum_height, ms),
{
}

/// An image below either configured minimum dimension is rejected when the
/// filter is enabled.
pub proof fn lemma_below_minimum_size_excluded(width: u32, height: u32, ms: MinimumSize)
    requires
        ms.enable,
        width < ms.minimum_width || height < ms.minimum_height,
    ensures
        !minimum_size_ok(width, height, ms),
{
}

} // verus!
