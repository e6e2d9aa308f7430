//! The frame composer: one whole character-cell frame.
//!
//! Every screen column gets a ray whose angle spreads the field of view
//! linearly across the viewport; the ray's hit distance becomes a wall
//! span, and each row of the column is shaded or left open by the span
//! test. A top-left overlay the size of the grid shows the map itself,
//! with the camera's cell marked. Cells are abstract glyph classes; the
//! surrounding application chooses the characters.

use vstd::prelude::*;
use crate::{SCALE, FULL_TURN, HALF_TURN, WIDTH_MAX, HEIGHT_MAX};
use crate::camera::Camera;
use crate::grid::Grid;
use crate::project::{
    Shade, WallSpan, shade_of, ceiling_row_of, floor_row_of, project, row_in_span,
};
use crate::raycast::{ray_hit, cast};

verus! {

/// One character cell of a composed frame.
#[derive(Clone, Copy, Debug, PartialEq, Eq, Structural)]
pub enum Cell {
    /// Background: nothing to draw here.
    Open,
    /// Part of a wall span, at the given shade.
    Shaded(Shade),
    /// A wall cell of the map overlay.
    WallMark,
    /// The camera's own cell in the map overlay.
    CameraMark,
}

/// The ray angle of one screen column: the heading, less half the field
/// of view, plus the column's share of it.
pub open spec fn column_angle(cam: Camera, width: int, x: int) -> int {
    cam.angle - cam.fov / 2 + (x * cam.fov) / width
}

/// The map cell a camera coordinate falls in, as the overlay draws it:
/// truncated, with negative coordinates collapsing to cell zero.
pub open spec fn cam_cell(coord: int) -> int {
    if coord < 0 {
        0
    } else {
        coord / (SCALE as int)
    }
}

/// One cell of the map overlay: the camera's cell, else a wall, else
/// open floor.
pub open spec fn overlay_cell(cam: Camera, grid: Grid, x: int, y: int) -> Cell {
    if x == cam_cell(cam.x as int) && y == cam_cell(cam.y as int) {
        Cell::CameraMark
    } else if grid.wall(x, y) {
        Cell::WallMark
    } else {
        Cell::Open
    }
}

/// One cell of the first-person view: shaded when the row lies in the
/// column's wall span, open otherwise.
pub open spec fn view_cell(cam: Camera, grid: Grid, width: int, height: int, x: int, y: int) -> Cell {
    let d = ray_hit(cam, grid, column_angle(cam, width, x));
    if ceiling_row_of(d, height) <= y * SCALE <= floor_row_of(d, height) {
        Cell::Shaded(shade_of(d))
    } else {
        Cell::Open
    }
}

/// One cell of the finished frame: the overlay inside the grid-sized
/// top-left square, the first-person view everywhere else.
pub open spec fn frame_cell(cam: Camera, grid: Grid, width: int, height: int, x: int, y: int) -> Cell {
    if x < grid.side && y < grid.side {
        overlay_cell(cam, grid, x, y)
    } else {
        view_cell(cam, grid, width, height, x, y)
    }
}

/// A composed frame: `height` rows of `width` cells.
pub struct Frame {
    /// Viewport width in columns.
    pub width: usize,
    /// Viewport height in rows.
    pub height: usize,
    /// Row-major cells: `rows[y][x]`.
    pub rows: Vec<Vec<Cell>>,
}

/// Computes one screen column's ray angle.
fn column_angle_x(cam: &Camera, width: usize, x: usize) -> (a: i64)
    requires
        cam.wf(),
        0 < width <= WIDTH_MAX,
        x < width,
    ensures
        a == column_angle(*cam, width as int, x as int),
        -FULL_TURN <= a < 2 * FULL_TURN,
{
    proof {
        assert(0 <= (x as int) * cam.fov <= (width as int) * cam.fov) by (nonlinear_arith)
            requires 0 <= x <= width, cam.fov > 0;
        assert((width as int) * cam.fov <= WIDTH_MAX * HALF_TURN) by (nonlinear_arith)
            requires 0 < width <= WIDTH_MAX, 0 < cam.fov <= HALF_TURN;
        vstd::arithmetic::div_mod::lemma_div_is_ordered(
            (x as int) * cam.fov, (width as int) * cam.fov, width as int);
        vstd::arithmetic::div_mod::lemma_div_pos_is_pos((x as int) * cam.fov, width as int);
        assert((width as int) * cam.fov == cam.fov * (width as int)) by (nonlinear_arith);
        vstd::arithmetic::div_mod::lemma_div_multiples_vanish(cam.fov as int, width as int);
    }
    let off = ((x as i64) * cam.fov) / (width as i64);
    cam.angle - cam.fov / 2 + off
}

/// Composes one frame from the camera and the grid: per-column
/// raycasting and projection, with the map overlay in the top-left
/// corner. Every cell of the result is pinned to `frame_cell`.
#[verifier::loop_isolation(false)]
pub fn compose_frame(cam: &Camera, grid: &Grid, width: usize, height: usize) -> (f: Frame)
    requires
        cam.wf(),
        grid.wf(),
        0 < width <= WIDTH_MAX,
        0 < height <= HEIGHT_MAX,
    ensures
        f.width == width,
        f.height == height,
        f.rows@.len() == height,
        forall|y: int| 0 <= y < height ==> #[trigger] f.rows@[y]@.len() == width,
        forall|x: int, y: int| 0 <= x < width && 0 <= y < height ==>
            #[trigger] f.rows@[y]@[x]
                == frame_cell(*cam, *grid, width as int, height as int, x, y),
{
    let mut spans: Vec<WallSpan> = Vec::new();
    let mut x: usize = 0;
    while x < width
        invariant
            x <= width,
            spans@.len() == x,
            forall|i: int| 0 <= i < x ==> {
                let d = ray_hit(*cam, *grid, column_angle(*cam, width as int, i));
                (#[trigger] spans@[i]).ceiling_row == ceiling_row_of(d, height as int)
                && spans@[i].floor_row == floor_row_of(d, height as int)
                && spans@[i].shade == shade_of(d)
            },
        decreases width - x,
    {
        let a = column_angle_x(cam, width, x);
        let d = cast(cam, grid, a);
        let sp = project(d, height);
        spans.push(sp);
        x = x + 1;
    }
    let mut rows: Vec<Vec<Cell>> = Vec::new();
    let mut y: usize = 0;
    while y < height
        invariant
            y <= height,
            rows@.len() == y,
            forall|yy: int| 0 <= yy < y ==> #[trigger] rows@[yy]@.len() == width,
            forall|xx: int, yy: int| 0 <= xx < width && 0 <= yy < y ==>
                #[trigger] rows@[yy]@[xx]
                    == frame_cell(*cam, *grid, width as int, height as int, xx, yy),
        decreases height - y,
    {
        let mut row: Vec<Cell> = Vec::new();
        let mut x: usize = 0;
        while x < width
            invariant
                x <= width,
                row@.len() == x,
                forall|xx: int| 0 <= xx < x ==>
                    #[trigger] row@[xx]
                        == frame_cell(*cam, *grid, width as int, height as int, xx, y as int),
            decreases width - x,
        {
            let cell: Cell;
            if x < grid.side && y < grid.side {
                let cx: i64 = if cam.x < 0 { 0 } else { cam.x / SCALE };
                let cy: i64 = if cam.y < 0 { 0 } else { cam.y / SCALE };
                if x as i64 == cx && y as i64 == cy {
                    cell = Cell::CameraMark;
                } else if grid.is_wall(x, y) {
                    cell = Cell::WallMark;
                } else {
                    cell = Cell::Open;
                }
            } else {
                if row_in_span(&spans[x], y) {
                    cell = Cell::Shaded(spans[x].shade);
                } else {
                    cell = Cell::Open;
                }
            }
            row.push(cell);
            x = x + 1;
        }
        rows.push(row);
        y = y + 1;
    }
    Frame { width, height, rows }
}

} // verus!
