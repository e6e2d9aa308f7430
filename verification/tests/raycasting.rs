use raycaster::camera::{apply_input, Camera, InputState};
use raycaster::frame::{compose_frame, Cell};
use raycaster::grid::Grid;
use raycaster::project::{project, row_in_span, shade, Shade};
use raycaster::raycast::cast;
use raycaster::trig::{cos_fp, sin_fp};
use raycaster::{
    DEFAULT_DEPTH, DEFAULT_FOV, FULL_TURN, HALF_TURN, QUARTER_TURN, ROT_STEP, SCALE,
};

/// The 8x8 map: a walled border, an open interior, one inner cluster.
fn world_cells() -> Vec<u8> {
    vec![
        1, 1, 1, 1, 1, 1, 1, 1, //
        1, 0, 1, 0, 0, 0, 0, 1, //
        1, 0, 0, 0, 0, 1, 0, 1, //
        1, 0, 0, 0, 0, 1, 0, 1, //
        1, 0, 0, 0, 0, 0, 0, 1, //
        1, 0, 0, 0, 1, 1, 1, 1, //
        1, 1, 0, 0, 0, 0, 0, 1, //
        1, 1, 1, 1, 1, 1, 1, 1, //
    ]
}

fn world_grid() -> Grid {
    Grid::new(8, world_cells()).expect("the world map is square")
}

#[test]
fn open_map_ray_escapes_at_full_depth() {
    let grid = Grid::new(8, vec![0u8; 64]).expect("an open map is square");
    let cam = Camera::new(3 * SCALE, 3 * SCALE, 0);
    assert_eq!(cast(&cam, &grid, 0), DEFAULT_DEPTH);
    assert_eq!(cast(&cam, &grid, QUARTER_TURN / 3), DEFAULT_DEPTH);
    assert_eq!(cast(&cam, &grid, HALF_TURN), DEFAULT_DEPTH);
}

#[test]
fn adjacent_wall_hit_is_within_one_step() {
    let grid = world_grid();
    // From (3.5, 3.5) straight along +y: the first wall in column 3 is
    // the border row y = 7, entered at true distance 3.5.
    let cam = Camera::new(35000, 35000, 0);
    assert_eq!(cast(&cam, &grid, 0), 35000);
    // Straight along -y: the border row y = 0 begins at true distance
    // 2.5; fixed-step marching lands one step past it.
    assert_eq!(cast(&cam, &grid, HALF_TURN), 26000);
}

#[test]
fn projection_shrinks_with_distance() {
    let near = project(2 * SCALE, 24);
    let far = project(4 * SCALE, 24);
    assert_eq!(near.ceiling_row, 0);
    assert_eq!(near.floor_row, 240000);
    assert_eq!(far.ceiling_row, 60000);
    assert_eq!(far.floor_row, 180000);
    assert!(near.ceiling_row <= far.ceiling_row);
    assert!(far.floor_row - far.ceiling_row < near.floor_row - near.ceiling_row);
}

#[test]
fn span_membership_matches_rows() {
    let sp = project(4 * SCALE, 24);
    // Wall rows are exactly 6..=18 for this span.
    assert!(!row_in_span(&sp, 5));
    assert!(row_in_span(&sp, 6));
    assert!(row_in_span(&sp, 12));
    assert!(row_in_span(&sp, 18));
    assert!(!row_in_span(&sp, 19));
}

#[test]
fn shade_boundaries_are_exact() {
    assert_eq!(shade(1), Shade::Darkest);
    assert_eq!(shade(SCALE), Shade::Darkest);
    assert_eq!(shade(SCALE + 1), Shade::Dark);
    assert_eq!(shade(2 * SCALE), Shade::Dark);
    assert_eq!(shade(2 * SCALE + 1), Shade::Medium);
    assert_eq!(shade(3 * SCALE), Shade::Medium);
    assert_eq!(shade(3 * SCALE + 1), Shade::Light);
    assert_eq!(shade(5 * SCALE), Shade::Light);
    assert_eq!(shade(5 * SCALE + 1), Shade::Blank);
}

#[test]
fn rotation_round_trip_restores_the_heading() {
    let mut cam = Camera::new(3 * SCALE, 3 * SCALE, 0);
    for _ in 0..90 {
        cam.rotate_left();
    }
    assert_eq!(cam.angle, FULL_TURN - 90 * ROT_STEP);
    for _ in 0..90 {
        cam.rotate_right();
    }
    assert_eq!(cam.angle, 0);
    assert_eq!(cam.x, 3 * SCALE);
    assert_eq!(cam.y, 3 * SCALE);
}

#[test]
fn one_rotation_step_is_two_degrees() {
    let mut cam = Camera::new(0, 0, 0);
    cam.rotate_left();
    assert_eq!(cam.angle, FULL_TURN - ROT_STEP);
    cam.rotate_right();
    cam.rotate_right();
    assert_eq!(cam.angle, ROT_STEP);
}

#[test]
fn center_ray_of_the_world_map() {
    let grid = world_grid();
    let cam = Camera::new(3 * SCALE, 3 * SCALE, 0);
    // Column 3 of the map is open up to the border row y = 7: the
    // center ray marches from y = 3.0 and stops at distance 4.0.
    assert_eq!(cast(&cam, &grid, 0), 4 * SCALE);
}

#[test]
fn composed_frame_shows_view_and_overlay() {
    let grid = world_grid();
    let cam = Camera::new(3 * SCALE, 3 * SCALE, 0);
    let f = compose_frame(&cam, &grid, 80, 24);
    assert_eq!(f.width, 80);
    assert_eq!(f.height, 24);
    assert_eq!(f.rows.len(), 24);
    assert_eq!(f.rows[0].len(), 80);
    // Overlay: border wall, camera cell, open floor.
    assert_eq!(f.rows[0][0], Cell::WallMark);
    assert_eq!(f.rows[3][3], Cell::CameraMark);
    assert_eq!(f.rows[1][1], Cell::Open);
    // Column 40 aims straight ahead: hit at 4.0, wall rows 6..=18.
    assert_eq!(f.rows[5][40], Cell::Open);
    assert_eq!(f.rows[6][40], Cell::Shaded(Shade::Light));
    assert_eq!(f.rows[12][40], Cell::Shaded(Shade::Light));
    assert_eq!(f.rows[18][40], Cell::Shaded(Shade::Light));
    assert_eq!(f.rows[19][40], Cell::Open);
}

#[test]
fn camera_outside_the_map_sees_full_depth() {
    let grid = world_grid();
    let cam = Camera::new(-SCALE, 3 * SCALE, 0);
    assert_eq!(cast(&cam, &grid, 0), DEFAULT_DEPTH);
    assert_eq!(cast(&cam, &grid, QUARTER_TURN), DEFAULT_DEPTH);
}

#[test]
fn grid_rejects_a_mismatched_cell_count() {
    assert!(Grid::new(8, vec![0u8; 63]).is_none());
    assert!(Grid::new(8, vec![0u8; 65]).is_none());
    assert!(Grid::new(0, vec![]).is_none());
    let g = Grid::new(8, vec![0u8; 64]).expect("64 cells make an 8x8 grid");
    assert_eq!(g.side, 8);
}

#[test]
fn camera_config_rejects_bad_fov_and_depth() {
    assert!(Camera::with_config(0, 0, 0, 0, DEFAULT_DEPTH).is_none());
    assert!(Camera::with_config(0, 0, 0, -1, DEFAULT_DEPTH).is_none());
    assert!(Camera::with_config(0, 0, 0, HALF_TURN, DEFAULT_DEPTH).is_none());
    assert!(Camera::with_config(0, 0, 0, DEFAULT_FOV, 0).is_none());
    assert!(Camera::with_config(0, 0, 0, DEFAULT_FOV, -5).is_none());
    let cam = Camera::with_config(SCALE, SCALE, 0, DEFAULT_FOV, DEFAULT_DEPTH)
        .expect("the default configuration is valid");
    assert_eq!(cam.fov, DEFAULT_FOV);
    assert_eq!(cam.depth, DEFAULT_DEPTH);
}

#[test]
fn sine_and_cosine_are_exact_at_quadrants() {
    assert_eq!(sin_fp(0), 0);
    assert_eq!(sin_fp(QUARTER_TURN), SCALE);
    assert_eq!(sin_fp(HALF_TURN), 0);
    assert_eq!(sin_fp(HALF_TURN + QUARTER_TURN), -SCALE);
    assert_eq!(sin_fp(-QUARTER_TURN), -SCALE);
    assert_eq!(cos_fp(0), SCALE);
    assert_eq!(cos_fp(QUARTER_TURN), 0);
    assert_eq!(cos_fp(HALF_TURN), -SCALE);
}

#[test]
fn input_moves_along_the_heading() {
    let mut cam = Camera::new(3 * SCALE, 3 * SCALE, 0);
    let forward = InputState {
        rotate_left: false,
        rotate_right: false,
        move_forward: true,
        move_backward: false,
    };
    apply_input(&mut cam, &forward);
    assert_eq!(cam.x, 3 * SCALE);
    assert_eq!(cam.y, 4 * SCALE);
    let back = InputState {
        rotate_left: false,
        rotate_right: false,
        move_forward: false,
        move_backward: true,
    };
    apply_input(&mut cam, &back);
    assert_eq!(cam.x, 3 * SCALE);
    assert_eq!(cam.y, 3 * SCALE);
    let turn = InputState {
        rotate_left: true,
        rotate_right: false,
        move_forward: false,
        move_backward: false,
    };
    apply_input(&mut cam, &turn);
    assert_eq!(cam.angle, FULL_TURN - ROT_STEP);
    assert_eq!(cam.y, 3 * SCALE);
}
