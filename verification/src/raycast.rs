//! The raycaster: fixed-step marching from the camera to the first wall.
//!
//! A ray advances [`STEP`] units at a time. At each step the candidate
//! point is `(x + sine * d / SCALE, y + cosine * d / SCALE)`; a point
//! outside the grid ends the ray at the camera's full depth, a point
//! inside a wall cell ends it at the marched distance. The step count
//! is capped at `depth / STEP + 1`, which also bounds the marched
//! distance, so the march always terminates.

use vstd::prelude::*;
use crate::{SCALE, STEP, FULL_TURN, DEPTH_MAX};
use crate::grid::Grid;
use crate::camera::Camera;
use crate::trig::{sine, cosine, sin_fp, cos_fp, lemma_sine_bounds, lemma_cosine_bounds};

verus! {

/// Truncating division, as the hardware divides: toward zero.
pub open spec fn tdiv(a: int, b: int) -> int {
    if a >= 0 {
        a / b
    } else {
        -((-a) / b)
    }
}

/// A direction component times a distance, in `SCALE` units:
/// `s * d / SCALE`, truncated toward zero.
pub open spec fn scaled(s: int, d: int) -> int {
    tdiv(s * d, SCALE as int)
}

/// The scaled product of a direction component and a distance stays
/// within the distance itself.
pub proof fn lemma_scaled_bounds(s: int, d: int)
    requires
        -SCALE <= s <= SCALE,
        0 <= d,
    ensures
        -d <= scaled(s, d) <= d,
{
    let sc = SCALE as int;
    if s >= 0 {
        assert(s * d <= sc * d) by (nonlinear_arith)
            requires 0 <= s <= sc, 0 <= d;
        assert(0 <= s * d) by (nonlinear_arith)
            requires 0 <= s, 0 <= d;
        vstd::arithmetic::div_mod::lemma_div_is_ordered(s * d, sc * d, sc);
        vstd::arithmetic::div_mod::lemma_div_multiples_vanish(d, sc);
        vstd::arithmetic::div_mod::lemma_div_pos_is_pos(s * d, sc);
        assert(sc * d == d * sc) by (nonlinear_arith);
    } else {
        assert((-s) * d <= sc * d) by (nonlinear_arith)
            requires 0 <= -s <= sc, 0 <= d;
        assert(0 <= (-s) * d) by (nonlinear_arith)
            requires 0 <= -s, 0 <= d;
        assert(-(s * d) == (-s) * d) by (nonlinear_arith);
        vstd::arithmetic::div_mod::lemma_div_is_ordered((-s) * d, sc * d, sc);
        vstd::arithmetic::div_mod::lemma_div_multiples_vanish(d, sc);
        vstd::arithmetic::div_mod::lemma_div_pos_is_pos((-s) * d, sc);
        assert(sc * d == d * sc) by (nonlinear_arith);
    }
}

/// A direction component times a distance, truncated toward zero.
fn scale_mul(s: i64, d: i64) -> (r: i64)
    requires
        -SCALE <= s <= SCALE,
        0 <= d <= DEPTH_MAX + STEP,
    ensures
        r == scaled(s as int, d as int),
        -d <= r <= d,
{
    proof {
        lemma_scaled_bounds(s as int, d as int);
        assert(-(SCALE * (DEPTH_MAX + STEP)) <= s * d <= SCALE * (DEPTH_MAX + STEP))
            by (nonlinear_arith)
            requires -SCALE <= s <= SCALE, 0 <= d <= DEPTH_MAX + STEP;
    }
    if s >= 0 {
        (s * d) / SCALE
    } else {
        proof {
            assert((-s) * d == -(s * d)) by (nonlinear_arith);
            assert(s * d <= 0) by (nonlinear_arith)
                requires s <= 0, 0 <= d;
        }
        -(((-s) * d) / SCALE)
    }
}

/// The marched distance from `(ox, oy)` along `(s, c)`, continued from
/// distance `d` with `fuel` steps left: the full `depth` once the ray
/// leaves the grid or the fuel runs out, the stepped distance at the
/// first wall cell.
pub open spec fn march(
    grid: Grid, ox: int, oy: int, s: int, c: int, depth: int, d: int, fuel: nat,
) -> int
    decreases fuel,
{
    if fuel == 0 {
        depth
    } else {
        let d2 = d + STEP;
        let px = ox + scaled(s, d2);
        let py = oy + scaled(c, d2);
        if px < 0 || py < 0 || px >= grid.side * SCALE || py >= grid.side * SCALE {
            depth
        } else if grid.wall(px / (SCALE as int), py / (SCALE as int)) {
            d2
        } else {
            march(grid, ox, oy, s, c, depth, d2, (fuel - 1) as nat)
        }
    }
}

/// The distance the given camera's ray at `angle` travels through the
/// grid: the whole fixed-step march from distance zero.
pub open spec fn ray_hit(cam: Camera, grid: Grid, angle: int) -> int {
    march(
        grid, cam.x as int, cam.y as int,
        sine(angle), cosine(angle),
        cam.depth as int, 0,
        ((cam.depth as int) / (STEP as int) + 1) as nat,
    )
}

/// Casts one ray: marches from the camera position along `ray_angle`
/// until a wall or the edge of the grid, in steps of `STEP`.
/// The result is positive and never beyond `depth + STEP`.
#[verifier::loop_isolation(false)]
pub fn cast(cam: &Camera, grid: &Grid, ray_angle: i64) -> (d: i64)
    requires
        cam.wf(),
        grid.wf(),
        -FULL_TURN <= ray_angle < 2 * FULL_TURN,
    ensures
        d == ray_hit(*cam, *grid, ray_angle as int),
        0 < d <= cam.depth + STEP,
{
    proof {
        lemma_sine_bounds(ray_angle as int);
        lemma_cosine_bounds(ray_angle as int);
    }
    let s = sin_fp(ray_angle);
    let c = cos_fp(ray_angle);
    let edge = (grid.side as i64) * SCALE;
    let fuel = cam.depth / STEP + 1;
    let mut d: i64 = 0;
    let mut i: i64 = 0;
    while i < fuel
        invariant
            0 <= i <= fuel,
            d == i * STEP,
            march(*grid, cam.x as int, cam.y as int, s as int, c as int,
                  cam.depth as int, d as int, (fuel - i) as nat)
                == ray_hit(*cam, *grid, ray_angle as int),
        decreases fuel - i,
    {
        proof {
            vstd::arithmetic::div_mod::lemma_fundamental_div_mod(cam.depth as int, STEP as int);
            vstd::arithmetic::div_mod::lemma_mod_bound(cam.depth as int, STEP as int);
            vstd::arithmetic::mul::lemma_mul_inequality(i + 1, fuel as int, STEP as int);
            assert((i + 1) * STEP == i * STEP + STEP);
            assert((fuel as int) * STEP == ((cam.depth as int) / (STEP as int)) * STEP + STEP);
            assert(d + STEP <= cam.depth + STEP);
        }
        let d2 = d + STEP;
        let px = cam.x + scale_mul(s, d2);
        let py = cam.y + scale_mul(c, d2);
        if px < 0 || py < 0 || px >= edge || py >= edge {
            return cam.depth;
        }
        proof {
            assert(0 <= (px as int) / (SCALE as int) < grid.side) by (nonlinear_arith)
                requires 0 <= px < grid.side * SCALE, SCALE > 0;
            assert(0 <= (py as int) / (SCALE as int) < grid.side) by (nonlinear_arith)
                requires 0 <= py < grid.side * SCALE, SCALE > 0;
        }
        let cx = (px / SCALE) as usize;
        let cy = (py / SCALE) as usize;
        if grid.is_wall(cx, cy) {
            return d2;
        }
        d = d2;
        i = i + 1;
    }
    cam.depth
}

/// In a grid with no wall anywhere, every ray escapes: the march always
/// comes back with the camera's full depth.
pub proof fn lemma_march_open_grid(
    grid: Grid, ox: int, oy: int, s: int, c: int, depth: int, d: int, fuel: nat,
)
    requires
        grid.wf(),
        forall|x: int, y: int| 0 <= x < grid.side && 0 <= y < grid.side ==> !grid.wall(x, y),
    ensures
        march(grid, ox, oy, s, c, depth, d, fuel) == depth,
    decreases fuel,
{
    if fuel > 0 {
        let d2 = d + STEP;
        let px = ox + scaled(s, d2);
        let py = oy + scaled(c, d2);
        if !(px < 0 || py < 0 || px >= grid.side * SCALE || py >= grid.side * SCALE) {
            assert(0 <= (px as int) / (SCALE as int) < grid.side) by (nonlinear_arith)
                requires 0 <= px < grid.side * SCALE, SCALE > 0;
            assert(0 <= (py as int) / (SCALE as int) < grid.side) by (nonlinear_arith)
                requires 0 <= py < grid.side * SCALE, SCALE > 0;
            lemma_march_open_grid(grid, ox, oy, s, c, depth, d2, (fuel - 1) as nat);
        }
    }
}

/// A camera with no wall anywhere in the grid reads its full depth from
/// every cast, wherever it stands and wherever it looks.
pub proof fn lemma_cast_open_grid(cam: Camera, grid: Grid, angle: int)
    requires
        cam.wf(),
        grid.wf(),
        forall|x: int, y: int| 0 <= x < grid.side && 0 <= y < grid.side ==> !grid.wall(x, y),
    ensures
        ray_hit(cam, grid, angle) == cam.depth,
{
    lemma_march_open_grid(
        grid, cam.x as int, cam.y as int, sine(angle), cosine(angle),
        cam.depth as int, 0, ((cam.depth as int) / (STEP as int) + 1) as nat,
    );
}

/// A camera standing more than one step beyond the grid's low-`x` edge
/// is out of the map on the very first step: the cast returns its full
/// depth at once.
pub proof fn lemma_cast_outside_returns_depth(cam: Camera, grid: Grid, angle: int)
    requires
        cam.wf(),
        grid.wf(),
        cam.x < -STEP,
        -FULL_TURN <= angle < 2 * FULL_TURN,
    ensures
        ray_hit(cam, grid, angle) == cam.depth,
{
    lemma_sine_bounds(angle);
    let s = sine(angle);
    let fuel = ((cam.depth as int) / (STEP as int) + 1) as nat;
    assert((cam.depth as int) / (STEP as int) >= 0) by {
        vstd::arithmetic::div_mod::lemma_div_pos_is_pos(cam.depth as int, STEP as int);
    }
    assert(fuel > 0);
    lemma_scaled_bounds(s, STEP as int);
    assert(cam.x + scaled(s, 0 + STEP) < 0);
}

} // verus!
