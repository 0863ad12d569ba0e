//! The layout engine: pure integer geometry that scales a page to a viewport
//! and centres it there.
//!
//! Scaling keeps the aspect ratio and rounds the derived dimension up, as a
//! ceiling of an exact rational quotient. Single-page scaling fills the
//! viewport along the image's longer axis; dual-page scaling fills the half
//! viewport's width unless the width-driven height would overflow the height
//! budget, in which case the height wins and the width is recomputed from it.

use vstd::prelude::*;
use vstd::arithmetic::div_mod::{
    lemma_div_by_self, lemma_div_is_ordered, lemma_div_nonincreasing, lemma_div_plus_one,
};
use vstd::arithmetic::mul::{lemma_mul_strictly_positive, lemma_mul_upper_bound};

verus! {

/// How an image's axes compare: taller than wide, wider than tall, or equal.
#[derive(Clone, Copy, Debug, PartialEq, Eq, Structural)]
pub enum Orientation {
    Vertical,
    Horizontal,
    Square,
}

pub open spec fn orientation_of(width: int, height: int) -> Orientation {
    if width < height {
        Orientation::Vertical
    } else if height < width {
        Orientation::Horizontal
    } else {
        Orientation::Square
    }
}

/// Classifies an image as Vertical (`width < height`), Horizontal
/// (`height < width`) or Square.
pub fn orientation(width: i32, height: i32) -> (o: Orientation)
    ensures
        o == orientation_of(width as int, height as int),
{
    if width < height {
        Orientation::Vertical
    } else if height < width {
        Orientation::Horizontal
    } else {
        Orientation::Square
    }
}

/// Ceiling of `a / b` for a non-negative dividend and a positive divisor.
pub open spec fn ceil_div(a: int, b: int) -> int
    recommends
        0 <= a,
        1 <= b,
{
    (a + b - 1) / b
}

/// The size single-page scaling assigns to an `orig_w x orig_h` image in a
/// `viewport_w x viewport_h` viewport: a vertical or square image takes the
/// viewport's height and a width rounded up from the aspect ratio; a
/// horizontal image takes the viewport's width and a height rounded up.
pub open spec fn spec_scale_single(orig_w: int, orig_h: int, viewport_w: int, viewport_h: int) -> (
    int,
    int,
) {
    match orientation_of(orig_w, orig_h) {
        Orientation::Horizontal => (viewport_w, ceil_div(viewport_w * orig_h, orig_w)),
        _ => (ceil_div(viewport_h * orig_w, orig_h), viewport_h),
    }
}

/// The size dual-page scaling assigns: the width-driven height candidate
/// `ceil(viewport_w / (w/h))` wins unless it overflows `viewport_h`, in which
/// case the height is capped there and the width is recomputed from it.
pub open spec fn spec_scale_dual(orig_w: int, orig_h: int, viewport_w: int, viewport_h: int) -> (
    int,
    int,
) {
    let height_candidate = ceil_div(viewport_w * orig_h, orig_w);
    if height_candidate > viewport_h {
        (ceil_div(viewport_h * orig_w, orig_h), viewport_h)
    } else {
        (viewport_w, height_candidate)
    }
}

/// Whether a computed size can be represented in the `i32` dimensions a
/// raster image carries; a size that cannot makes the resize fail and leaves
/// the previously scaled image in place.
pub open spec fn size_fits(size: (int, int)) -> bool {
    size.0 <= i32::MAX && size.1 <= i32::MAX
}

/// Ceiling division on machine integers, computed as `(a - 1) / b + 1` to
/// stay in range for every positive dividend.
fn ceil_div_u64(a: u64, b: u64) -> (r: u64)
    requires
        1 <= a,
        1 <= b,
    ensures
        r == ceil_div(a as int, b as int),
{
    proof {
        lemma_div_nonincreasing(a - 1, b as int);
        lemma_div_plus_one(a - 1, b as int);
    }
    (a - 1) / b + 1
}

/// Single-page scaled size, or `None` when the viewport is smaller than one
/// pixel in either direction or the exact size will not fit a raster
/// dimension.
pub fn scale_single_size(orig_w: i32, orig_h: i32, viewport_w: i32, viewport_h: i32) -> (r: Option<
    (i32, i32),
>)
    requires
        1 <= orig_w,
        1 <= orig_h,
    ensures
        ({
            let size = spec_scale_single(
                orig_w as int,
                orig_h as int,
                viewport_w as int,
                viewport_h as int,
            );
            if viewport_w < 1 || viewport_h < 1 {
                r is None
            } else if size_fits(size) {
                r matches Some(s) && s.0 == size.0 && s.1 == size.1
            } else {
                r is None
            }
        }),
{
    if viewport_w < 1 || viewport_h < 1 {
        return None;
    }
    let ow = orig_w as u64;
    let oh = orig_h as u64;
    let vw = viewport_w as u64;
    let vh = viewport_h as u64;
    proof {
        lemma_mul_strictly_positive(vw as int, oh as int);
        lemma_mul_strictly_positive(vh as int, ow as int);
        lemma_mul_upper_bound(vw as int, i32::MAX as int, oh as int, i32::MAX as int);
        lemma_mul_upper_bound(vh as int, i32::MAX as int, ow as int, i32::MAX as int);
    }
    let (w64, h64): (u64, u64) = if orig_h < orig_w {
        (vw, ceil_div_u64(vw * oh, ow))
    } else {
        (ceil_div_u64(vh * ow, oh), vh)
    };
    if w64 > i32::MAX as u64 || h64 > i32::MAX as u64 {
        return None;
    }
    Some((w64 as i32, h64 as i32))
}

/// Dual-page scaled size, or `None` when the viewport is smaller than one
/// pixel in either direction or the exact size will not fit a raster
/// dimension.
pub fn scale_dual_size(orig_w: i32, orig_h: i32, viewport_w: i32, viewport_h: i32) -> (r: Option<
    (i32, i32),
>)
    requires
        1 <= orig_w,
        1 <= orig_h,
    ensures
        ({
            let size = spec_scale_dual(
                orig_w as int,
                orig_h as int,
                viewport_w as int,
                viewport_h as int,
            );
            if viewport_w < 1 || viewport_h < 1 {
                r is None
            } else if size_fits(size) {
                r matches Some(s) && s.0 == size.0 && s.1 == size.1
            } else {
                r is None
            }
        }),
{
    if viewport_w < 1 || viewport_h < 1 {
        return None;
    }
    let ow = orig_w as u64;
    let oh = orig_h as u64;
    let vw = viewport_w as u64;
    let vh = viewport_h as u64;
    proof {
        lemma_mul_strictly_positive(vw as int, oh as int);
        lemma_mul_strictly_positive(vh as int, ow as int);
        lemma_mul_upper_bound(vw as int, i32::MAX as int, oh as int, i32::MAX as int);
        lemma_mul_upper_bound(vh as int, i32::MAX as int, ow as int, i32::MAX as int);
    }
    let height_candidate = ceil_div_u64(vw * oh, ow);
    let (w64, h64): (u64, u64) = if height_candidate > vh {
        (ceil_div_u64(vh * ow, oh), vh)
    } else {
        (vw, height_candidate)
    };
    if w64 > i32::MAX as u64 || h64 > i32::MAX as u64 {
        return None;
    }
    Some((w64 as i32, h64 as i32))
}

/// The offset that centres a `size`-wide picture in a `target`-wide span,
/// clamped to 0 when the picture is as large as the span or larger.
pub open spec fn spec_center_offset(target: int, size: int) -> int {
    if target - size <= 0 {
        0
    } else {
        (target - size) / 2
    }
}

/// Margins that centre one page in the drawing area.
#[derive(Clone, Copy, Debug, PartialEq, Eq, Structural)]
pub struct MarginData {
    pub left_margin: i32,
    pub top_margin: i32,
}

/// Margins that centre a two-page spread: one shared horizontal margin and
/// one vertical margin per page.
#[derive(Clone, Copy, Debug, PartialEq, Eq, Structural)]
pub struct MarginDataForDual {
    pub left_margin: i32,
    pub top_margin_for_left: i32,
    pub top_margin_for_right: i32,
}

/// Centres a single page: each margin is half the slack along its axis, and
/// 0 when the page overflows the area (an oversized page is aligned at the
/// top-left corner, never offset negatively).
pub fn calc_margin_for_single(
    pic_width: i32,
    pic_height: i32,
    target_width: i32,
    target_height: i32,
) -> (m: MarginData)
    requires
        1 <= pic_width,
        1 <= pic_height,
    ensures
        m.left_margin == spec_center_offset(target_width as int, pic_width as int),
        m.top_margin == spec_center_offset(target_height as int, pic_height as int),
{
    let left_margin: i32 = if target_width <= pic_width {
        0
    } else {
        (((target_width as i64 - pic_width as i64) as u64) / 2) as i32
    };
    let top_margin: i32 = if target_height <= pic_height {
        0
    } else {
        (((target_height as i64 - pic_height as i64) as u64) / 2) as i32
    };
    MarginData { left_margin, top_margin }
}

/// Centres a two-page spread: the horizontal slack is measured against the
/// two widths side by side, and each page is centred vertically on its own.
pub fn calc_margin_for_dual(
    left_width: i32,
    left_height: i32,
    right_width: i32,
    right_height: i32,
    target_width: i32,
    target_height: i32,
) -> (m: MarginDataForDual)
    requires
        1 <= left_width,
        1 <= left_height,
        1 <= right_width,
        1 <= right_height,
    ensures
        m.left_margin == spec_center_offset(
            target_width as int,
            left_width as int + right_width as int,
        ),
        m.top_margin_for_left == spec_center_offset(target_height as int, left_height as int),
        m.top_margin_for_right == spec_center_offset(target_height as int, right_height as int),
{
    let combined = left_width as i64 + right_width as i64;
    let left_margin: i32 = if target_width as i64 <= combined {
        0
    } else {
        (((target_width as i64 - combined) as u64) / 2) as i32
    };
    let top_margin_for_left: i32 = if target_height <= left_height {
        0
    } else {
        (((target_height as i64 - left_height as i64) as u64) / 2) as i32
    };
    let top_margin_for_right: i32 = if target_height <= right_height {
        0
    } else {
        (((target_height as i64 - right_height as i64) as u64) / 2) as i32
    };
    MarginDataForDual { left_margin, top_margin_for_left, top_margin_for_right }
}

/// Ceiling division of a positive dividend by a positive divisor is at
/// least 1.
proof fn lemma_ceil_div_at_least_one(a: int, b: int)
    requires
        1 <= a,
        1 <= b,
    ensures
        1 <= ceil_div(a, b),
{
    lemma_div_by_self(b);
    lemma_div_is_ordered(b, a + b - 1, b);
}

/// For every viewport with both dimensions at least 1 and every image,
/// single-page scaling yields dimensions that are both at least 1, and the
/// dimension matching the image's longer original axis equals the
/// corresponding viewport dimension: a horizontal image takes the viewport's
/// width, any other the viewport's height.
pub proof fn lemma_scale_single_fills_viewport(ow: int, oh: int, vw: int, vh: int)
    requires
        1 <= ow,
        1 <= oh,
        1 <= vw,
        1 <= vh,
    ensures
        ({
            let size = spec_scale_single(ow, oh, vw, vh);
            &&& 1 <= size.0
            &&& 1 <= size.1
            &&& orientation_of(ow, oh) == Orientation::Horizontal ==> size.0 == vw
            &&& orientation_of(ow, oh) != Orientation::Horizontal ==> size.1 == vh
        }),
{
    lemma_mul_strictly_positive(vw, oh);
    lemma_mul_strictly_positive(vh, ow);
    lemma_ceil_div_at_least_one(vw * oh, ow);
    lemma_ceil_div_at_least_one(vh * ow, oh);
}

/// Dual-page scaling, too, yields dimensions that are both at least 1 for
/// every viewport with both dimensions at least 1 and every image.
pub proof fn lemma_scale_dual_at_least_one(ow: int, oh: int, vw: int, vh: int)
    requires
        1 <= ow,
        1 <= oh,
        1 <= vw,
        1 <= vh,
    ensures
        ({
            let size = spec_scale_dual(ow, oh, vw, vh);
            1 <= size.0 && 1 <= size.1
        }),
{
    lemma_mul_strictly_positive(vw, oh);
    lemma_mul_strictly_positive(vh, ow);
    lemma_ceil_div_at_least_one(vw * oh, ow);
    lemma_ceil_div_at_least_one(vh * ow, oh);
}

/// Round trip: a page whose size matches the viewport exactly is centred at
/// the origin, with no margin in either direction.
pub proof fn lemma_margin_exact_fit(width: int, height: int)
    ensures
        spec_center_offset(width, width) == 0,
        spec_center_offset(height, height) == 0,
{
}

} // verus!
