//! The projector and shader: from a hit distance to a wall span.
//!
//! A column whose ray came back at distance `d` shows a wall between
//! `ceiling_row = h/2 - h/d` and `floor_row = h - ceiling_row`, both in
//! [`SCALE`] units of a row; a screen row lies in the span when its
//! scaled index falls between the two. The shade is a five-level
//! function of the distance with exact thresholds at 1, 2, 3 and 5
//! cells.

use vstd::prelude::*;
use crate::{SCALE, HEIGHT_MAX};

verus! {

/// A discrete shade level, darkest close by, blank past five cells.
#[derive(Clone, Copy, Debug, PartialEq, Eq, Structural)]
pub enum Shade {
    Darkest,
    Dark,
    Medium,
    Light,
    Blank,
}

/// The shade owed to a hit distance: thresholds at exactly 1, 2, 3 and
/// 5 cells, each bound belonging to the nearer (darker) level.
pub open spec fn shade_of(d: int) -> Shade {
    if d <= SCALE {
        Shade::Darkest
    } else if d <= 2 * SCALE {
        Shade::Dark
    } else if d <= 3 * SCALE {
        Shade::Medium
    } else if d <= 5 * SCALE {
        Shade::Light
    } else {
        Shade::Blank
    }
}

/// Computes the shade level of a hit distance.
pub fn shade(distance: i64) -> (s: Shade)
    ensures
        s == shade_of(distance as int),
{
    if distance <= SCALE {
        Shade::Darkest
    } else if distance <= 2 * SCALE {
        Shade::Dark
    } else if distance <= 3 * SCALE {
        Shade::Medium
    } else if distance <= 5 * SCALE {
        Shade::Light
    } else {
        Shade::Blank
    }
}

/// The first wall row of a column, in `SCALE` units of a row:
/// `h/2 - h/d` with `h` rows and distance `d`, both scaled.
pub open spec fn ceiling_row_of(d: int, h: int) -> int {
    (h * SCALE) / 2 - (h * SCALE * SCALE) / d
}

/// The last wall row of a column, in `SCALE` units of a row.
pub open spec fn floor_row_of(d: int, h: int) -> int {
    h * SCALE - ceiling_row_of(d, h)
}

/// One column's wall span: its first and last row in `SCALE` units of
/// a row, and its shade.
pub struct WallSpan {
    /// First row of the wall, in `SCALE` units of a row; can be
    /// negative when the wall towers past the viewport.
    pub ceiling_row: i64,
    /// Last row of the wall, in `SCALE` units of a row.
    pub floor_row: i64,
    /// The shade of the whole span.
    pub shade: Shade,
}

/// Converts a hit distance and a viewport height into a wall span.
pub fn project(distance: i64, height: usize) -> (sp: WallSpan)
    requires
        0 < distance,
        0 < height <= HEIGHT_MAX,
    ensures
        sp.ceiling_row == ceiling_row_of(distance as int, height as int),
        sp.floor_row == floor_row_of(distance as int, height as int),
        sp.shade == shade_of(distance as int),
{
    let hs = (height as i64) * SCALE;
    proof {
        vstd::arithmetic::div_mod::lemma_div_pos_is_pos(hs * (SCALE as int), distance as int);
        vstd::arithmetic::div_mod::lemma_div_is_ordered(
            hs * (SCALE as int), HEIGHT_MAX * SCALE * (SCALE as int), distance as int);
        vstd::arithmetic::div_mod::lemma_div_is_ordered_by_denominator(
            HEIGHT_MAX * SCALE * (SCALE as int), 1, distance as int);
    }
    let ceiling_row = hs / 2 - (hs * SCALE) / distance;
    let floor_row = hs - ceiling_row;
    WallSpan { ceiling_row, floor_row, shade: shade(distance) }
}

/// Whether a screen row lies inside a span: its scaled index is between
/// the span's first and last row, both ends included.
pub open spec fn in_span(sp: WallSpan, row: int) -> bool {
    sp.ceiling_row <= row * SCALE <= sp.floor_row
}

/// Tests whether one screen row lies inside a span.
pub fn row_in_span(sp: &WallSpan, row: usize) -> (r: bool)
    requires
        row <= HEIGHT_MAX,
    ensures
        r == in_span(*sp, row as int),
{
    let scaled_row = (row as i64) * SCALE;
    sp.ceiling_row <= scaled_row && scaled_row <= sp.floor_row
}

/// The projection is monotone in the distance: a farther wall has its
/// ceiling row no lower (and never past the screen's middle), its floor
/// row no higher, and a span no taller than a nearer wall's.
pub proof fn lemma_project_monotonic(d1: int, d2: int, h: int)
    requires
        0 < d1 < d2,
        0 < h <= HEIGHT_MAX,
    ensures
        ceiling_row_of(d1, h) <= ceiling_row_of(d2, h) <= (h * SCALE) / 2,
        floor_row_of(d2, h) <= floor_row_of(d1, h),
        floor_row_of(d2, h) - ceiling_row_of(d2, h) <= floor_row_of(d1, h) - ceiling_row_of(d1, h),
{
    let num = h * SCALE * (SCALE as int);
    assert(num >= 0);
    vstd::arithmetic::div_mod::lemma_div_is_ordered_by_denominator(num, d1, d2);
    vstd::arithmetic::div_mod::lemma_div_pos_is_pos(num, d2);
}

/// Where the projection still resolves a difference — two distances
/// whose product stays within `h * SCALE * SCALE` — a strictly larger
/// distance gives a strictly higher ceiling row and a strictly shorter
/// span. Past that range integer truncation can map both distances to
/// the same rows, and only the weak ordering above holds.
pub proof fn lemma_project_strictly_monotonic(d1: int, d2: int, h: int)
    requires
        0 < d1 < d2,
        0 < h <= HEIGHT_MAX,
        d1 * d2 <= h * SCALE * SCALE,
    ensures
        ceiling_row_of(d1, h) < ceiling_row_of(d2, h),
        floor_row_of(d2, h) < floor_row_of(d1, h),
        floor_row_of(d2, h) - ceiling_row_of(d2, h) < floor_row_of(d1, h) - ceiling_row_of(d1, h),
{
    let n = h * SCALE * (SCALE as int);
    let q2 = n / d2;
    assert((d1 * d2) / d2 <= n / d2) by {
        vstd::arithmetic::div_mod::lemma_div_is_ordered(d1 * d2, n, d2);
    }
    assert((d1 * d2) / d2 == d1) by {
        assert(d1 * d2 == d2 * d1) by (nonlinear_arith);
        vstd::arithmetic::div_mod::lemma_div_multiples_vanish(d1, d2);
    }
    vstd::arithmetic::div_mod::lemma_fundamental_div_mod(n, d2);
    vstd::arithmetic::div_mod::lemma_mod_bound(n, d2);
    let r2 = n % d2;
    assert(n - d1 * (q2 + 1) == q2 * (d2 - d1) + r2 - d1) by (nonlinear_arith)
        requires n == d2 * q2 + r2;
    assert(q2 * (d2 - d1) >= d1 * (d2 - d1)) by (nonlinear_arith)
        requires q2 >= d1, d2 - d1 >= 1;
    assert(d1 * (d2 - d1) >= d1) by (nonlinear_arith)
        requires d1 >= 1, d2 - d1 >= 1;
    assert(n >= d1 * (q2 + 1));
    assert((d1 * (q2 + 1)) / d1 <= n / d1) by {
        vstd::arithmetic::div_mod::lemma_div_is_ordered(d1 * (q2 + 1), n, d1);
    }
    assert((d1 * (q2 + 1)) / d1 == q2 + 1) by {
        vstd::arithmetic::div_mod::lemma_div_multiples_vanish(q2 + 1, d1);
    }
    assert(n / d1 >= q2 + 1);
}

} // verus!
