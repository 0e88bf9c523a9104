use raycaster::fraction_num::SignedFractionNum;
use raycaster::game::player::Player;
use raycaster::game::{
    camera_x_of, cast_ray, column_span, delta_dist, far_distance, ray_direction, ray_setup, render,
    world_map, Game, RenderError, WallHitSide, HEIGHT, WIDTH,
};

fn camera(pos: (i64, i64), dir: (i64, i64), plane_raw: (i64, i64)) -> Player {
    Player {
        pos_x: SignedFractionNum::new(pos.0),
        pos_y: SignedFractionNum::new(pos.1),
        dir_x: SignedFractionNum::new(dir.0),
        dir_y: SignedFractionNum::new(dir.1),
        cam_plane_x: SignedFractionNum::from_raw_i64(plane_raw.0),
        cam_plane_y: SignedFractionNum::from_raw_i64(plane_raw.1),
    }
}

#[test]
fn default_player() {
    let p = Player::_new();
    assert_eq!(p, Player::default());
    assert_eq!(p.pos_x, SignedFractionNum::new(2));
    assert_eq!(p.pos_y, SignedFractionNum::new(2));
    assert_eq!(p.dir_x, SignedFractionNum::new(-1));
    assert_eq!(p.dir_y, SignedFractionNum::new(0));
    assert_eq!(p.cam_plane_x, SignedFractionNum::new(0));
    assert_eq!(p.cam_plane_y.into_raw_i64(), 43254);
}

#[test]
fn reference_map_layout() {
    let map = world_map();
    for i in 0..8 {
        assert_eq!(map[0][i], 1);
        assert_eq!(map[7][i], 1);
        assert_eq!(map[i][0], 1);
    }
    assert_eq!(map[3][7], 0);
    assert_eq!(map[4][4], 0);
}

#[test]
fn camera_x_spans_the_view() {
    assert_eq!(camera_x_of(0, 320), SignedFractionNum::new(-1));
    assert_eq!(camera_x_of(160, 320), SignedFractionNum::new(0));
    assert_eq!(camera_x_of(80, 320).into_raw_i64(), -32768);
    assert_eq!(camera_x_of(3, 4).into_raw_i64(), 32768);
}

#[test]
fn center_column_ray_is_the_direction() {
    let p = camera((4, 4), (-1, 0), (0, 43254));
    let cx = camera_x_of(WIDTH / 2, WIDTH);
    assert_eq!(cx, SignedFractionNum::new(0));
    assert_eq!(ray_direction(&p, cx), (p.dir_x, p.dir_y));
    let setup = ray_setup(&p, WIDTH / 2, WIDTH);
    assert_eq!((setup.ray_dir_x, setup.ray_dir_y), (p.dir_x, p.dir_y));
}

#[test]
fn center_ray_hits_west_wall() {
    let p = camera((4, 4), (-1, 0), (0, 43254));
    let map = world_map();
    let hit = cast_ray(&p, &map, WIDTH / 2, WIDTH).unwrap();
    assert_eq!(hit.map_x, 0);
    assert_eq!(hit.map_y, 4);
    assert_eq!(hit.side, WallHitSide::NS);
    assert_eq!(hit.tile, 1);
    // The camera is 3 units from the wall's face at x == 1.
    assert_eq!(hit.perp_wall_dist, SignedFractionNum::new(3));
    let span = column_span(&hit, HEIGHT).unwrap();
    assert_eq!((span.bottom, span.top), (67, 133));
    assert_eq!(span.color, [255, 0, 0, 255]);
}

#[test]
fn axis_aligned_ray_walks_only_along_y() {
    let p = camera((4, 4), (0, -1), (43254, 0));
    let map = world_map();
    let hit = cast_ray(&p, &map, WIDTH / 2, WIDTH).unwrap();
    assert_eq!(hit.setup.ray_dir_x, SignedFractionNum::new(0));
    assert_eq!(hit.setup.delta_dist_x, far_distance());
    assert_eq!(hit.setup.delta_dist_x.into_raw_i64(), i64::MAX);
    assert_eq!(hit.map_x, 4);
    assert_eq!(hit.map_y, 0);
    assert_eq!(hit.side, WallHitSide::EW);
    assert_eq!(hit.perp_wall_dist, SignedFractionNum::new(3));
    let span = column_span(&hit, HEIGHT).unwrap();
    assert_eq!(span.color, [255, 0, 0, 127]);
}

#[test]
fn delta_distance_of_components() {
    assert_eq!(delta_dist(SignedFractionNum::new(0)), far_distance());
    assert_eq!(delta_dist(SignedFractionNum::new(-1)), SignedFractionNum::new(1));
    assert_eq!(delta_dist(SignedFractionNum::from_raw_i64(32768)), SignedFractionNum::new(2));
    assert_eq!(delta_dist(SignedFractionNum::new(-4)).into_raw_i64(), 16384);
}

#[test]
fn tie_advances_y_first() {
    // Both side distances start at zero: the walk steps along y first.
    let p = camera((2, 2), (-1, -1), (0, 0));
    let map = world_map();
    let hit = cast_ray(&p, &map, 0, 2).unwrap();
    assert_eq!(hit.setup.side_dist_x, SignedFractionNum::new(0));
    assert_eq!(hit.setup.side_dist_y, SignedFractionNum::new(0));
    assert_eq!((hit.map_x, hit.map_y), (1, 0));
    assert_eq!(hit.side, WallHitSide::EW);
}

#[test]
fn ray_through_open_edge_leaves_map() {
    let p = camera((4, 4), (0, 1), (43254, 0));
    let map = world_map();
    assert_eq!(cast_ray(&p, &map, WIDTH / 2, WIDTH), Err(RenderError::RayLeftMap));
    let mut buffer = vec![7u8; 4 * 3 * 4];
    assert_eq!(render(&p, &map, 4, 3, &mut buffer), Err(RenderError::RayLeftMap));
    assert!(buffer.iter().all(|&b| b == 7));
}

#[test]
fn camera_off_the_map_is_refused() {
    let p = camera((-1, 4), (-1, 0), (0, 43254));
    let map = world_map();
    assert_eq!(cast_ray(&p, &map, 0, WIDTH), Err(RenderError::CameraOutsideMap));
    let q = camera((3, 8), (-1, 0), (0, 43254));
    assert_eq!(cast_ray(&q, &map, 0, WIDTH), Err(RenderError::CameraOutsideMap));
}

#[test]
fn wall_closer_than_one_unit_is_refused() {
    let mut p = camera((1, 4), (-1, 0), (0, 43254));
    p.pos_x = SignedFractionNum::from_raw_i64(65536 + 32768);
    let map = world_map();
    let hit = cast_ray(&p, &map, WIDTH / 2, WIDTH).unwrap();
    assert_eq!(hit.perp_wall_dist.into_raw_i64(), 32768);
    assert_eq!(column_span(&hit, HEIGHT), Err(RenderError::ZeroDistance));
}

#[test]
fn render_small_frame() {
    let p = camera((4, 4), (-1, 0), (0, 43254));
    let map = world_map();
    let (w, h) = (4usize, 12usize);
    let mut buffer = vec![9u8; w * h * 4];
    assert_eq!(render(&p, &map, w as u32, h as u32, &mut buffer), Ok(()));
    for row in 0..h {
        for col in 0..w {
            let i = (row * w + col) * 4;
            let expected = if (4..=8).contains(&row) { [255, 0, 0, 255] } else { [0, 0, 0, 0] };
            assert_eq!(&buffer[i..i + 4], &expected, "row {row} column {col}");
        }
    }
}

#[test]
fn game_draws_default_view() {
    let game = Game::new();
    assert!(!game.is_paused());
    let mut frame = vec![0u8; (WIDTH * HEIGHT * 4) as usize];
    assert_eq!(game.draw(&mut frame), Ok(()));
    // The default camera stands one unit from the wall it faces: every column
    // is a full-height strip.
    for px in frame.chunks_exact(4) {
        assert_eq!(px, &[255, 0, 0, 255]);
    }
}

#[test]
fn degenerate_ray_still_terminates() {
    let p = camera((4, 4), (0, 0), (0, 0));
    let map = world_map();
    let setup = ray_setup(&p, 0, 8);
    assert_eq!(setup.delta_dist_x, far_distance());
    assert_eq!(setup.delta_dist_y, far_distance());
    assert_eq!(cast_ray(&p, &map, 0, 8), Err(RenderError::RayLeftMap));
}
