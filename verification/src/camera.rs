//! The camera: a continuous pose inside (or outside) the map.
//!
//! Position is in [`SCALE`] units per map cell, the heading in
//! [`FULL_TURN`] units per revolution, kept reduced to `[0, FULL_TURN)`.
//! A heading of zero points along `+y`, growing clockwise toward `+x`,
//! so the direction vector is `(sine(angle), cosine(angle))`. One move
//! covers one map cell; one rotation is two degrees. Rotations wrap
//! exactly, which makes the round-trip law below an equality rather
//! than a tolerance.

use vstd::prelude::*;
use crate::{SCALE, FULL_TURN, HALF_TURN, ROT_STEP, COORD_MAX, DEPTH_MAX, DEFAULT_FOV, DEFAULT_DEPTH};
use crate::trig::{sine, cosine, sin_fp, cos_fp};

verus! {

/// A camera pose with its field of view and maximum render depth.
pub struct Camera {
    /// Position along `+x`, in `SCALE` units per cell.
    pub x: i64,
    /// Position along `+y`, in `SCALE` units per cell.
    pub y: i64,
    /// Heading in `[0, FULL_TURN)` angle units; `0` points along `+y`.
    pub angle: i64,
    /// Field of view in angle units, within `(0, HALF_TURN)`.
    pub fov: i64,
    /// Maximum ray travel in `SCALE` units, within `(0, DEPTH_MAX]`.
    pub depth: i64,
}

impl Camera {
    /// The pose invariant: heading reduced, field of view and depth in
    /// range, position within the coordinate budget.
    pub open spec fn wf(self) -> bool {
        &&& 0 <= self.angle < FULL_TURN
        &&& 0 < self.fov < HALF_TURN
        &&& 0 < self.depth <= DEPTH_MAX
        &&& -COORD_MAX <= self.x <= COORD_MAX
        &&& -COORD_MAX <= self.y <= COORD_MAX
    }

    /// An angle one rotation step away, wrapped back into
    /// `[0, FULL_TURN)`; meaningful for `a` in `(-FULL_TURN, 2 * FULL_TURN)`.
    pub open spec fn wrapped(a: int) -> int {
        if a < 0 {
            a + FULL_TURN
        } else if a >= FULL_TURN {
            a - FULL_TURN
        } else {
            a
        }
    }

    /// The pose after one step to the left (counter-clockwise).
    pub open spec fn rotated_left(self) -> Camera {
        Camera { angle: Self::wrapped(self.angle - ROT_STEP) as i64, ..self }
    }

    /// The pose after one step to the right (clockwise).
    pub open spec fn rotated_right(self) -> Camera {
        Camera { angle: Self::wrapped(self.angle + ROT_STEP) as i64, ..self }
    }

    /// The pose after one step forward along the heading.
    pub open spec fn moved_forward(self) -> Camera {
        Camera {
            x: (self.x + sine(self.angle as int)) as i64,
            y: (self.y + cosine(self.angle as int)) as i64,
            ..self
        }
    }

    /// The pose after one step backward along the heading.
    pub open spec fn moved_backward(self) -> Camera {
        Camera {
            x: (self.x - sine(self.angle as int)) as i64,
            y: (self.y - cosine(self.angle as int)) as i64,
            ..self
        }
    }

    /// A camera at `(x, y)` with the given heading and the default
    /// field of view (a third of a half-turn) and depth (16 cells).
    pub fn new(x: i64, y: i64, angle: i64) -> (c: Camera)
        requires
            -COORD_MAX <= x <= COORD_MAX,
            -COORD_MAX <= y <= COORD_MAX,
            0 <= angle < FULL_TURN,
        ensures
            c == (Camera { x, y, angle, fov: DEFAULT_FOV, depth: DEFAULT_DEPTH }),
            c.wf(),
    {
        Camera { x, y, angle, fov: DEFAULT_FOV, depth: DEFAULT_DEPTH }
    }

    /// A camera with an explicit field of view and depth; rejects a
    /// field of view outside `(0, HALF_TURN)`, a depth outside
    /// `(0, DEPTH_MAX]`, and a pose outside the representable range.
    pub fn with_config(x: i64, y: i64, angle: i64, fov: i64, depth: i64) -> (r: Option<Camera>)
        ensures
            r is Some <==> {
                &&& -COORD_MAX <= x <= COORD_MAX
                &&& -COORD_MAX <= y <= COORD_MAX
                &&& 0 <= angle < FULL_TURN
                &&& 0 < fov < HALF_TURN
                &&& 0 < depth <= DEPTH_MAX
            },
            r matches Some(c) ==> c == (Camera { x, y, angle, fov, depth }) && c.wf(),
    {
        if -COORD_MAX <= x && x <= COORD_MAX && -COORD_MAX <= y && y <= COORD_MAX
            && 0 <= angle && angle < FULL_TURN && 0 < fov && fov < HALF_TURN
            && 0 < depth && depth <= DEPTH_MAX
        {
            Some(Camera { x, y, angle, fov, depth })
        } else {
            None
        }
    }

    /// Rotates one step counter-clockwise.
    pub fn rotate_left(&mut self)
        requires
            old(self).wf(),
        ensures
            *final(self) == old(self).rotated_left(),
            final(self).wf(),
    {
        let a = self.angle - ROT_STEP;
        self.angle = if a < 0 { a + FULL_TURN } else { a };
    }

    /// Rotates one step clockwise.
    pub fn rotate_right(&mut self)
        requires
            old(self).wf(),
        ensures
            *final(self) == old(self).rotated_right(),
            final(self).wf(),
    {
        let a = self.angle + ROT_STEP;
        self.angle = if a >= FULL_TURN { a - FULL_TURN } else { a };
    }

    /// Moves one cell forward along the heading.
    pub fn move_forward(&mut self)
        requires
            old(self).wf(),
            -COORD_MAX + SCALE <= old(self).x <= COORD_MAX - SCALE,
            -COORD_MAX + SCALE <= old(self).y <= COORD_MAX - SCALE,
        ensures
            *final(self) == old(self).moved_forward(),
            final(self).wf(),
    {
        let s = sin_fp(self.angle);
        let c = cos_fp(self.angle);
        self.x = self.x + s;
        self.y = self.y + c;
    }

    /// Moves one cell backward along the heading.
    pub fn move_backward(&mut self)
        requires
            old(self).wf(),
            -COORD_MAX + SCALE <= old(self).x <= COORD_MAX - SCALE,
            -COORD_MAX + SCALE <= old(self).y <= COORD_MAX - SCALE,
        ensures
            *final(self) == old(self).moved_backward(),
            final(self).wf(),
    {
        let s = sin_fp(self.angle);
        let c = cos_fp(self.angle);
        self.x = self.x - s;
        self.y = self.y - c;
    }

    /// The pose after `n` steps to the left.
    pub open spec fn rotated_left_n(self, n: nat) -> Camera
        decreases n,
    {
        if n == 0 {
            self
        } else {
            self.rotated_left_n((n - 1) as nat).rotated_left()
        }
    }

    /// The pose after `n` steps to the right, applied head-first.
    pub open spec fn rotated_right_n(self, n: nat) -> Camera
        decreases n,
    {
        if n == 0 {
            self
        } else {
            self.rotated_right().rotated_right_n((n - 1) as nat)
        }
    }
}

/// One frame's worth of movement commands, as the input collaborator
/// sampled them.
#[derive(Clone, Copy, Debug, PartialEq, Eq, Structural)]
pub struct InputState {
    /// The rotate-left key is held.
    pub rotate_left: bool,
    /// The rotate-right key is held.
    pub rotate_right: bool,
    /// The move-forward key was pressed.
    pub move_forward: bool,
    /// The move-backward key was pressed.
    pub move_backward: bool,
}

/// The pose an input snapshot leads to, commands applied in the fixed
/// order rotate left, rotate right, forward, backward.
pub open spec fn after_input(c: Camera, i: InputState) -> Camera {
    let c1 = if i.rotate_left { c.rotated_left() } else { c };
    let c2 = if i.rotate_right { c1.rotated_right() } else { c1 };
    let c3 = if i.move_forward { c2.moved_forward() } else { c2 };
    if i.move_backward { c3.moved_backward() } else { c3 }
}

/// Applies one frame's input snapshot to the camera, in the fixed
/// command order.
pub fn apply_input(cam: &mut Camera, input: &InputState)
    requires
        old(cam).wf(),
        -COORD_MAX + 2 * SCALE <= old(cam).x <= COORD_MAX - 2 * SCALE,
        -COORD_MAX + 2 * SCALE <= old(cam).y <= COORD_MAX - 2 * SCALE,
    ensures
        *final(cam) == after_input(*old(cam), *input),
        final(cam).wf(),
{
    if input.rotate_left {
        cam.rotate_left();
    }
    if input.rotate_right {
        cam.rotate_right();
    }
    if input.move_forward {
        proof {
            crate::trig::lemma_sine_bounds(cam.angle as int);
            crate::trig::lemma_cosine_bounds(cam.angle as int);
        }
        cam.move_forward();
    }
    if input.move_backward {
        cam.move_backward();
    }
}

/// One rotation step in either order is undone exactly by its inverse.
pub proof fn lemma_rotate_inverse(c: Camera)
    requires
        c.wf(),
    ensures
        c.rotated_left().rotated_right() == c,
        c.rotated_right().rotated_left() == c,
{
}

/// Rotating left keeps the pose invariant.
pub proof fn lemma_rotated_left_n_wf(c: Camera, n: nat)
    requires
        c.wf(),
    ensures
        c.rotated_left_n(n).wf(),
    decreases n,
{
    if n > 0 {
        lemma_rotated_left_n_wf(c, (n - 1) as nat);
    }
}

/// The rotation round trip: `n` steps left followed by `n` steps right
/// restore the camera exactly — wrapping makes the composition an exact
/// inverse, not merely one up to tolerance.
pub proof fn lemma_rotation_round_trip(c: Camera, n: nat)
    requires
        c.wf(),
    ensures
        c.rotated_left_n(n).rotated_right_n(n) == c,
    decreases n,
{
    if n > 0 {
        let m = (n - 1) as nat;
        lemma_rotated_left_n_wf(c, m);
        lemma_rotate_inverse(c.rotated_left_n(m));
        assert(c.rotated_left_n(n).rotated_right() == c.rotated_left_n(m));
        lemma_rotation_round_trip(c, m);
        assert(c.rotated_left_n(n).rotated_right_n(n)
            == c.rotated_left_n(m).rotated_right_n(m));
    }
}

} // verus!
