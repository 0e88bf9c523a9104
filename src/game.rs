//! Per-column ray casting over a tile map (a DDA grid walk) and the
//! rasterisation of the resulting wall strips into an RGBA pixel buffer.
use vstd::arithmetic::div_mod::{lemma_fundamental_div_mod, lemma_fundamental_div_mod_converse};
use vstd::prelude::*;

use crate::fraction_num::{group_signed_fraction_num, trunc_div, SignedFractionNum};

pub mod player;

use self::player::Player;

verus! {

broadcast use group_signed_fraction_num;

/// Width of the rendered frame, in pixels.
pub const WIDTH: u32 = 320;

/// Height of the rendered frame, in pixels.
pub const HEIGHT: u32 = 200;

/// Side length of the square tile map.
pub const MAP_SIZE: usize = 8;

/// A square grid of tile ids, indexed `[x][y]`: 0 is empty, anything else a wall.
pub type WorldMap = [[u8; MAP_SIZE]; MAP_SIZE];

/// The tile at `(x, y)`.
pub open spec fn tile(map: WorldMap, x: int, y: int) -> u8 {
    map@[x]@[y]
}

/// Why a column, and with it the frame, could not be rendered.
#[derive(Clone, Copy, Debug, PartialEq, Eq, Structural)]
pub enum RenderError {
    /// The camera does not stand on a cell of the map.
    CameraOutsideMap,
    /// The ray would step off the map before meeting a wall.
    RayLeftMap,
    /// The perpendicular wall distance truncates to zero grid units.
    ZeroDistance,
}

/// Which grid axis was crossed by the step that met the wall.
#[derive(Clone, Copy, Debug, PartialEq, Eq, Structural)]
pub enum WallHitSide {
    /// The ray advanced along x: a wall face that runs north-south.
    NS,
    /// The ray advanced along y: a wall face that runs east-west.
    EW,
}

/// The value that stands for "never crosses a grid line on this axis": the
/// largest signed fixed-point value.
pub open spec fn spec_far() -> SignedFractionNum {
    SignedFractionNum::spec_from_raw(i64::MAX)
}

/// The column's offset across the field of view: `2 * column / width - 1`.
pub open spec fn spec_camera_x(column: u32, width: u32) -> SignedFractionNum {
    SignedFractionNum::spec_new(column as i64).spec_mul_int(2).spec_div(
        SignedFractionNum::spec_new(width as i64),
    ).spec_sub(SignedFractionNum::spec_new(1))
}

/// Distance along the ray between two grid lines of one axis, for a ray
/// component `d`: `|1 / d|`, or the far value when `d` is zero.
pub open spec fn spec_delta_dist(d: SignedFractionNum) -> SignedFractionNum {
    if d.raw() == 0 {
        spec_far()
    } else {
        SignedFractionNum::spec_new(1).spec_div(d).spec_abs()
    }
}

/// Everything fixed for one ray before the grid walk starts.
#[derive(Clone, Copy, Debug, PartialEq, Eq, Structural)]
pub struct RaySetup {
    pub ray_dir_x: SignedFractionNum,
    pub ray_dir_y: SignedFractionNum,
    pub delta_dist_x: SignedFractionNum,
    pub delta_dist_y: SignedFractionNum,
    /// Cell step along x: -1 or 1.
    pub step_x: i64,
    /// Cell step along y: -1 or 1.
    pub step_y: i64,
    /// Ray length from the camera to the first x grid line.
    pub side_dist_x: SignedFractionNum,
    /// Ray length from the camera to the first y grid line.
    pub side_dist_y: SignedFractionNum,
}

/// Step and first grid-line distance along one axis, from the camera's
/// coordinate, the ray component and the delta distance on that axis.
pub open spec fn spec_axis_start(
    pos: SignedFractionNum,
    d: SignedFractionNum,
    delta: SignedFractionNum,
) -> (i64, SignedFractionNum) {
    if d.raw() < 0 {
        (-1i64, pos.spec_frac().spec_mul(delta))
    } else {
        (1i64, SignedFractionNum::spec_new(1).spec_sub(pos.spec_frac()).spec_mul(delta))
    }
}

/// The ray through `camera_x`: `dir + plane * camera_x`, componentwise.
pub open spec fn spec_ray_direction(p: Player, camera_x: SignedFractionNum) -> (
    SignedFractionNum,
    SignedFractionNum,
) {
    (
        p.dir_x.spec_add(p.cam_plane_x.spec_mul(camera_x)),
        p.dir_y.spec_add(p.cam_plane_y.spec_mul(camera_x)),
    )
}

pub open spec fn spec_ray_setup(p: Player, column: u32, width: u32) -> RaySetup {
    let (rx, ry) = spec_ray_direction(p, spec_camera_x(column, width));
    let dx = spec_delta_dist(rx);
    let dy = spec_delta_dist(ry);
    let (sx, ix) = spec_axis_start(p.pos_x, rx, dx);
    let (sy, iy) = spec_axis_start(p.pos_y, ry, dy);
    RaySetup {
        ray_dir_x: rx,
        ray_dir_y: ry,
        delta_dist_x: dx,
        delta_dist_y: dy,
        step_x: sx,
        step_y: sy,
        side_dist_x: ix,
        side_dist_y: iy,
    }
}

/// The column's offset across the field of view, in `[-1, 1)` for columns
/// inside the frame.
pub fn camera_x_of(column: u32, width: u32) -> (r: SignedFractionNum)
    requires
        width > 0,
    ensures
        r == spec_camera_x(column, width),
{
    let scaled_width = SignedFractionNum::new(width as i64);
    let w = width as i64;
    assert(scaled_width.raw() == w * 65536) by {
        assert(0 < w * 65536 < 0x7fff_ffff_ffff_ffff);
    }
    (SignedFractionNum::new(column as i64) * 2) / scaled_width - SignedFractionNum::new(1)
}

/// The ray direction through `camera_x`.
pub fn ray_direction(p: &Player, camera_x: SignedFractionNum) -> (r: (
    SignedFractionNum,
    SignedFractionNum,
))
    ensures
        r == spec_ray_direction(*p, camera_x),
{
    (p.dir_x + p.cam_plane_x * camera_x, p.dir_y + p.cam_plane_y * camera_x)
}

/// The far value, used as the delta distance of an axis the ray never crosses.
pub fn far_distance() -> (r: SignedFractionNum)
    ensures
        r == spec_far(),
{
    SignedFractionNum::from_raw_i64(i64::MAX)
}

/// `|1 / d|`, except that a zero component gets the far value instead of a
/// division by zero.
pub fn delta_dist(d: SignedFractionNum) -> (r: SignedFractionNum)
    ensures
        r == spec_delta_dist(d),
{
    if d.into_raw_i64() == 0 {
        far_distance()
    } else {
        (SignedFractionNum::new(1) / d).abs()
    }
}

fn axis_start(pos: SignedFractionNum, d: SignedFractionNum, delta: SignedFractionNum) -> (r: (
    i64,
    SignedFractionNum,
))
    ensures
        r == spec_axis_start(pos, d, delta),
{
    if d.into_raw_i64() < 0 {
        (-1, pos.frac() * delta)
    } else {
        (1, (SignedFractionNum::new(1) - pos.frac()) * delta)
    }
}

/// Direction, per-axis distances and steps of the ray through `column`.
pub fn ray_setup(p: &Player, column: u32, width: u32) -> (r: RaySetup)
    requires
        width > 0,
    ensures
        r == spec_ray_setup(*p, column, width),
        r.ray_dir_x.raw() == 0 ==> r.delta_dist_x == spec_far(),
        r.ray_dir_y.raw() == 0 ==> r.delta_dist_y == spec_far(),
{
    let camera_x = camera_x_of(column, width);
    let (rx, ry) = ray_direction(p, camera_x);
    let dx = delta_dist(rx);
    let dy = delta_dist(ry);
    let (sx, ix) = axis_start(p.pos_x, rx, dx);
    let (sy, iy) = axis_start(p.pos_y, ry, dy);
    RaySetup {
        ray_dir_x: rx,
        ray_dir_y: ry,
        delta_dist_x: dx,
        delta_dist_y: dy,
        step_x: sx,
        step_y: sy,
        side_dist_x: ix,
        side_dist_y: iy,
    }
}

/// How many more steps along one axis stay on the map, from cell `m` moving by `step`.
pub open spec fn steps_left(step: i64, m: int) -> int {
    if step > 0 {
        MAP_SIZE - m
    } else {
        m + 1
    }
}

/// The grid walk from cell `(mx, my)` with the given side distances: advance
/// along x when its side distance is strictly smaller, else along y, until the
/// new cell is a wall (`Ok`: that cell, the axis of the step and the side
/// distances after it) or the next cell would be off the map.
pub open spec fn spec_walk(
    map: WorldMap,
    s: RaySetup,
    mx: int,
    my: int,
    sx: SignedFractionNum,
    sy: SignedFractionNum,
) -> Result<(int, int, WallHitSide, SignedFractionNum, SignedFractionNum), RenderError>
    decreases steps_left(s.step_x, mx) + steps_left(s.step_y, my),
    when 0 <= mx < MAP_SIZE && 0 <= my < MAP_SIZE && (s.step_x == 1 || s.step_x == -1) && (
    s.step_y == 1 || s.step_y == -1)
{
    if sx.raw() < sy.raw() {
        let nx = mx + s.step_x;
        let nsx = sx.spec_add(s.delta_dist_x);
        if !(0 <= nx < MAP_SIZE) {
            Err(RenderError::RayLeftMap)
        } else if tile(map, nx, my) != 0 {
            Ok((nx, my, WallHitSide::NS, nsx, sy))
        } else {
            spec_walk(map, s, nx, my, nsx, sy)
        }
    } else {
        let ny = my + s.step_y;
        let nsy = sy.spec_add(s.delta_dist_y);
        if !(0 <= ny < MAP_SIZE) {
            Err(RenderError::RayLeftMap)
        } else if tile(map, mx, ny) != 0 {
            Ok((mx, ny, WallHitSide::EW, sx, nsy))
        } else {
            spec_walk(map, s, mx, ny, sx, nsy)
        }
    }
}

/// What one ray met.
#[derive(Clone, Copy, Debug, PartialEq, Eq, Structural)]
pub struct RayHit {
    /// The ray's direction and per-axis distances and steps.
    pub setup: RaySetup,
    /// The wall cell.
    pub map_x: usize,
    pub map_y: usize,
    /// The axis advanced by the step that met the wall.
    pub side: WallHitSide,
    /// Side distances after that step.
    pub side_dist_x: SignedFractionNum,
    pub side_dist_y: SignedFractionNum,
    /// Distance to the wall measured along the camera's facing direction.
    pub perp_wall_dist: SignedFractionNum,
    /// The id of the wall tile.
    pub tile: u8,
}

/// The ray through `column`, walked from the camera's cell.
pub open spec fn spec_cast_ray(p: Player, map: WorldMap, column: u32, width: u32) -> Result<
    RayHit,
    RenderError,
> {
    let s = spec_ray_setup(p, column, width);
    let mx = p.pos_x.spec_to_integer() as int;
    let my = p.pos_y.spec_to_integer() as int;
    if !(0 <= mx < MAP_SIZE && 0 <= my < MAP_SIZE) {
        Err(RenderError::CameraOutsideMap)
    } else {
        match spec_walk(map, s, mx, my, s.side_dist_x, s.side_dist_y) {
            Ok((hx, hy, side, sx, sy)) => Ok(
                RayHit {
                    setup: s,
                    map_x: hx as usize,
                    map_y: hy as usize,
                    side,
                    side_dist_x: sx,
                    side_dist_y: sy,
                    perp_wall_dist: if side == WallHitSide::NS {
                        sx.spec_sub(s.delta_dist_x)
                    } else {
                        sy.spec_sub(s.delta_dist_y)
                    },
                    tile: tile(map, hx, hy),
                },
            ),
            Err(e) => Err(e),
        }
    }
}

/// The walk ends on a wall cell of the map.
proof fn lemma_walk_hits_wall(
    map: WorldMap,
    s: RaySetup,
    mx: int,
    my: int,
    sx: SignedFractionNum,
    sy: SignedFractionNum,
)
    requires
        0 <= mx < MAP_SIZE,
        0 <= my < MAP_SIZE,
        s.step_x == 1 || s.step_x == -1,
        s.step_y == 1 || s.step_y == -1,
    ensures
        spec_walk(map, s, mx, my, sx, sy) is Ok ==> {
            let (hx, hy, _, _, _) = spec_walk(map, s, mx, my, sx, sy)->Ok_0;
            0 <= hx < MAP_SIZE && 0 <= hy < MAP_SIZE && tile(map, hx, hy) != 0
        },
    decreases steps_left(s.step_x, mx) + steps_left(s.step_y, my),
{
    if sx.raw() < sy.raw() {
        let nx = mx + s.step_x;
        if 0 <= nx < MAP_SIZE && tile(map, nx, my) == 0 {
            lemma_walk_hits_wall(map, s, nx, my, sx.spec_add(s.delta_dist_x), sy);
        }
    } else {
        let ny = my + s.step_y;
        if 0 <= ny < MAP_SIZE && tile(map, mx, ny) == 0 {
            lemma_walk_hits_wall(map, s, mx, ny, sx, sy.spec_add(s.delta_dist_y));
        }
    }
}

/// Casts the ray through `column` across the map, stepping cell by cell
/// (the DDA walk), and reports the wall it meets, or why it met none.
pub fn cast_ray(p: &Player, map: &WorldMap, column: u32, width: u32) -> (r: Result<
    RayHit,
    RenderError,
>)
    requires
        width > 0,
    ensures
        r == spec_cast_ray(*p, *map, column, width),
        r is Ok ==> r->Ok_0.map_x < MAP_SIZE && r->Ok_0.map_y < MAP_SIZE && r->Ok_0.tile != 0,
{
    let setup = ray_setup(p, column, width);
    let start_x = p.pos_x.into_i64();
    let start_y = p.pos_y.into_i64();
    if start_x < 0 || start_x >= MAP_SIZE as i64 || start_y < 0 || start_y >= MAP_SIZE as i64 {
        return Err(RenderError::CameraOutsideMap);
    }
    proof {
        lemma_walk_hits_wall(
            *map,
            setup,
            start_x as int,
            start_y as int,
            setup.side_dist_x,
            setup.side_dist_y,
        );
    }
    let mut map_x = start_x;
    let mut map_y = start_y;
    let mut side_dist_x = setup.side_dist_x;
    let mut side_dist_y = setup.side_dist_y;
    loop
        invariant
            0 <= map_x < MAP_SIZE,
            0 <= map_y < MAP_SIZE,
            setup == spec_ray_setup(*p, column, width),
            setup.step_x == 1 || setup.step_x == -1,
            setup.step_y == 1 || setup.step_y == -1,
            0 <= start_x < MAP_SIZE,
            0 <= start_y < MAP_SIZE,
            start_x == p.pos_x.spec_to_integer(),
            start_y == p.pos_y.spec_to_integer(),
            spec_walk(*map, setup, map_x as int, map_y as int, side_dist_x, side_dist_y)
                == spec_walk(
                *map,
                setup,
                start_x as int,
                start_y as int,
                setup.side_dist_x,
                setup.side_dist_y,
            ),
        decreases steps_left(setup.step_x, map_x as int) + steps_left(setup.step_y, map_y as int),
    {
        let side;
        if side_dist_x.into_raw_i64() < side_dist_y.into_raw_i64() {
            side_dist_x = side_dist_x + setup.delta_dist_x;
            let next = map_x + setup.step_x;
            if next < 0 || next >= MAP_SIZE as i64 {
                return Err(RenderError::RayLeftMap);
            }
            map_x = next;
            side = WallHitSide::NS;
        } else {
            side_dist_y = side_dist_y + setup.delta_dist_y;
            let next = map_y + setup.step_y;
            if next < 0 || next >= MAP_SIZE as i64 {
                return Err(RenderError::RayLeftMap);
            }
            map_y = next;
            side = WallHitSide::EW;
        }
        let hit_tile = map[map_x as usize][map_y as usize];
        if hit_tile != 0 {
            let perp_wall_dist = match side {
                WallHitSide::NS => side_dist_x - setup.delta_dist_x,
                WallHitSide::EW => side_dist_y - setup.delta_dist_y,
            };
            return Ok(
                RayHit {
                    setup,
                    map_x: map_x as usize,
                    map_y: map_y as usize,
                    side,
                    side_dist_x,
                    side_dist_y,
                    perp_wall_dist,
                    tile: hit_tile,
                },
            );
        }
    }
}

/// The rows of one column that show a wall, and its colour.
#[derive(Clone, Copy, Debug, PartialEq, Eq)]
pub struct ColumnSpan {
    /// First row of the strip (rows count from the top of the frame).
    pub bottom: i64,
    /// Last row of the strip; below `bottom` when the strip is empty.
    pub top: i64,
    /// RGBA colour of the strip.
    pub color: [u8; 4],
}

/// Red for a wall (transparent for an empty tile), with half the alpha on
/// east-west faces.
pub open spec fn spec_color(tile: u8, side: WallHitSide) -> [u8; 4] {
    let alpha: u8 = if tile == 0 {
        0
    } else {
        255
    };
    let alpha: u8 = if side == WallHitSide::EW {
        alpha / 2
    } else {
        alpha
    };
    if tile == 0 {
        [0u8, 0u8, 0u8, alpha]
    } else {
        [255u8, 0u8, 0u8, alpha]
    }
}

/// The strip for a hit in a frame `height` rows high: `height / d` rows tall,
/// `d` the perpendicular distance truncated to whole grid units, centred, and
/// clamped to the rows of the frame.
pub open spec fn spec_column_span(hit: RayHit, height: u32) -> Result<ColumnSpan, RenderError> {
    let dist = hit.perp_wall_dist.spec_to_integer() as int;
    let h = height as int;
    if dist == 0 {
        Err(RenderError::ZeroDistance)
    } else {
        let line_height = trunc_div(h, dist);
        let low = trunc_div(-line_height, 2) + h / 2;
        let high = trunc_div(line_height, 2) + h / 2;
        Ok(
            ColumnSpan {
                bottom: (if low >= 0 {
                    low
                } else {
                    0
                }) as i64,
                top: (if high >= h {
                    h - 1
                } else {
                    high
                }) as i64,
                color: spec_color(hit.tile, hit.side),
            },
        )
    }
}

fn color_of(tile: u8, side: WallHitSide) -> (r: [u8; 4])
    ensures
        r == spec_color(tile, side),
{
    let mut color = if tile == 0 {
        [0u8, 0, 0, 0]
    } else {
        [255u8, 0, 0, 255]
    };
    if side == WallHitSide::EW {
        color[3] = color[3] / 2;
    }
    assert(color@ =~= spec_color(tile, side)@);
    color
}

/// The strip of a column whose ray made `hit`, in a frame `height` rows high.
pub fn column_span(hit: &RayHit, height: u32) -> (r: Result<ColumnSpan, RenderError>)
    ensures
        r == spec_column_span(*hit, height),
{
    let dist = hit.perp_wall_dist.into_i64();
    if dist == 0 {
        return Err(RenderError::ZeroDistance);
    }
    let h = height as i64;
    proof {
        let d = dist as int;
        assert(0 <= (h as int) / (if d >= 0 { d } else { -d }) <= h) by (nonlinear_arith)
            requires
                h >= 0,
                d != 0,
        ;
    }
    let line_height = h.checked_div(dist).unwrap();
    let low = (-line_height).checked_div(2).unwrap() + h / 2;
    let high = line_height.checked_div(2).unwrap() + h / 2;
    let bottom = if low >= 0 {
        low
    } else {
        0
    };
    let top = if high >= h {
        h - 1
    } else {
        high
    };
    Ok(ColumnSpan { bottom, top, color: color_of(hit.tile, hit.side) })
}

/// The strip of `column`, or why the column cannot be drawn.
pub open spec fn spec_column(p: Player, map: WorldMap, column: u32, width: u32, height: u32) -> Result<
    ColumnSpan,
    RenderError,
> {
    match spec_cast_ray(p, map, column, width) {
        Ok(hit) => spec_column_span(hit, height),
        Err(e) => Err(e),
    }
}

/// The column of the pixel that byte `j` of a row-major RGBA frame belongs to.
pub open spec fn pixel_column(j: int, width: int) -> int {
    (j / 4) % width
}

/// The row of the pixel that byte `j` of a row-major RGBA frame belongs to.
pub open spec fn pixel_row(j: int, width: int) -> int {
    (j / 4) / width
}

/// A byte of a column's pixel at `row`: the strip's colour inside the strip,
/// zero (transparent black) outside it.
pub open spec fn span_byte(span: ColumnSpan, row: int, channel: int) -> u8 {
    if span.bottom <= row <= span.top {
        span.color@[channel]
    } else {
        0
    }
}

/// Every column of the frame can be drawn.
pub open spec fn frame_ok(p: Player, map: WorldMap, width: u32, height: u32) -> bool {
    forall|c: u32| c < width ==> (#[trigger] spec_column(p, map, c, width, height)) is Ok
}

/// Byte `j` of the rendered frame.
pub open spec fn spec_frame_byte(p: Player, map: WorldMap, width: u32, height: u32, j: int) -> u8 {
    let c = pixel_column(j, width as int);
    span_byte(spec_column(p, map, c as u32, width, height)->Ok_0, pixel_row(j, width as int), j % 4)
}

proof fn lemma_decode_index(row: int, column: int, channel: int, width: int)
    requires
        0 <= row,
        0 <= column < width,
        0 <= channel < 4,
    ensures
        ((row * width + column) * 4 + channel) % 4 == channel,
        pixel_column((row * width + column) * 4 + channel, width) == column,
        pixel_row((row * width + column) * 4 + channel, width) == row,
{
    lemma_fundamental_div_mod_converse((row * width + column) * 4 + channel, 4, row * width + column, channel);
    lemma_fundamental_div_mod_converse(row * width + column, width, row, column);
}

/// A byte index is its pixel's row, column and channel put back together.
proof fn lemma_encode_index(j: int, width: int)
    requires
        0 <= j,
        width > 0,
    ensures
        j == (pixel_row(j, width) * width + pixel_column(j, width)) * 4 + j % 4,
{
    lemma_fundamental_div_mod(j, 4);
    lemma_fundamental_div_mod(j / 4, width);
    let q = j / 4;
    let row = q / width;
    let col = q % width;
    assert(j == (row * width + col) * 4 + j % 4) by (nonlinear_arith)
        requires
            j == 4 * q + j % 4,
            q == width * row + col,
    ;
}

proof fn lemma_index_in_frame(row: int, column: int, channel: int, width: int, height: int)
    requires
        0 <= row < height,
        0 <= column < width,
        0 <= channel < 4,
    ensures
        0 <= row * width + column,
        (row * width + column) * 4 + channel < width * height * 4,
{
    assert(0 <= row * width + column && (row * width + column) * 4 + channel < width * height * 4)
        by (nonlinear_arith)
        requires
            0 <= row < height,
            0 <= column < width,
            0 <= channel < 4,
    ;
}

proof fn lemma_byte_in_frame(j: int, width: int, height: int)
    requires
        0 <= j < width * height * 4,
        width > 0,
    ensures
        0 <= pixel_row(j, width) < height,
        0 <= pixel_column(j, width) < width,
        0 <= j % 4 < 4,
{
    let p = j / 4;
    assert(0 <= p < width * height);
    assert(0 <= p / width < height) by (nonlinear_arith)
        requires
            0 <= p < width * height,
            width > 0,
    ;
}

/// Writes one column of the frame: the strip's colour on its rows, zero on the
/// others. Bytes of other columns stay as they were.
fn draw_column(buffer: &mut [u8], width: u32, height: u32, column: u32, span: &ColumnSpan)
    requires
        column < width,
        old(buffer)@.len() == width as int * height as int * 4,
    ensures
        final(buffer)@.len() == old(buffer)@.len(),
        forall|j: int|
            0 <= j < old(buffer)@.len() ==> #[trigger] final(buffer)@[j] == if pixel_column(
                j,
                width as int,
            ) == column {
                span_byte(*span, pixel_row(j, width as int), j % 4)
            } else {
                old(buffer)@[j]
            },
{
    let ghost w = width as int;
    let len = buffer.len();
    let mut row: u32 = 0;
    while row < height
        invariant
            buffer@.len() == old(buffer)@.len(),
            len == buffer@.len(),
            column < width,
            row <= height,
            old(buffer)@.len() == width as int * height as int * 4,
            w == width as int,
            forall|j: int|
                0 <= j < buffer@.len() ==> #[trigger] buffer@[j] == if pixel_column(j, w) == column
                    && pixel_row(j, w) < row {
                    span_byte(*span, pixel_row(j, w), j % 4)
                } else {
                    old(buffer)@[j]
                },
        decreases height - row,
    {
        let mut channel: usize = 0;
        while channel < 4
            invariant
                buffer@.len() == old(buffer)@.len(),
                len == buffer@.len(),
                column < width,
                row < height,
                channel <= 4,
                old(buffer)@.len() == width as int * height as int * 4,
                w == width as int,
                forall|j: int|
                    0 <= j < buffer@.len() ==> #[trigger] buffer@[j] == if pixel_column(j, w)
                        == column && (pixel_row(j, w) < row || (pixel_row(j, w) == row && j % 4
                        < channel)) {
                        span_byte(*span, pixel_row(j, w), j % 4)
                    } else {
                        old(buffer)@[j]
                    },
            decreases 4 - channel,
        {
            proof {
                lemma_decode_index(row as int, column as int, channel as int, w);
                lemma_index_in_frame(row as int, column as int, channel as int, w, height as int);
            }
            let index = ((row as usize) * (width as usize) + column as usize) * 4 + channel;
            let value = if span.bottom <= row as i64 && row as i64 <= span.top {
                span.color[channel]
            } else {
                0
            };
            let ghost prev = buffer@;
            buffer[index] = value;
            proof {
                assert forall|j: int| 0 <= j < buffer@.len() && j != index implies buffer@[j]
                    == prev[j] by {}
                assert forall|j: int|
                    0 <= j < buffer@.len() && pixel_column(j, w) == column && pixel_row(j, w) == row
                        && j % 4 == channel implies j == index by {
                    lemma_encode_index(j, w);
                }
            }
            channel += 1;
        }
        row += 1;
    }
    proof {
        assert forall|j: int| 0 <= j < old(buffer)@.len() implies pixel_row(j, w) < height by {
            lemma_byte_in_frame(j, w, height as int);
        }
    }
}

/// Renders one frame: casts a ray per column and writes each column's strip,
/// clearing the rest of the column. When a column cannot be drawn the frame is
/// abandoned and the buffer is left as it was.
pub fn render(p: &Player, map: &WorldMap, width: u32, height: u32, buffer: &mut [u8]) -> (r: Result<
    (),
    RenderError,
>)
    requires
        width > 0,
        old(buffer)@.len() == width as int * height as int * 4,
    ensures
        final(buffer)@.len() == old(buffer)@.len(),
        r is Ok <==> frame_ok(*p, *map, width, height),
        r is Ok ==> forall|j: int|
            0 <= j < old(buffer)@.len() ==> #[trigger] final(buffer)@[j] == spec_frame_byte(
                *p,
                *map,
                width,
                height,
                j,
            ),
        r is Err ==> final(buffer)@ == old(buffer)@ && exists|c: u32|
            c < width && spec_column(*p, *map, c, width, height) == Err::<ColumnSpan, RenderError>(
                r->Err_0,
            ),
{
    let mut spans: Vec<ColumnSpan> = Vec::new();
    let mut c: u32 = 0;
    while c < width
        invariant
            width > 0,
            c <= width,
            spans@.len() == c,
            buffer@ == old(buffer)@,
            forall|i: int|
                0 <= i < c ==> spec_column(*p, *map, i as u32, width, height) == Ok::<
                    ColumnSpan,
                    RenderError,
                >(#[trigger] spans@[i]),
        decreases width - c,
    {
        let span = match cast_ray(p, map, c, width) {
            Ok(hit) => match column_span(&hit, height) {
                Ok(span) => span,
                Err(e) => {
                    assert(!(spec_column(*p, *map, c, width, height) is Ok));
                    return Err(e);
                },
            },
            Err(e) => {
                assert(!(spec_column(*p, *map, c, width, height) is Ok));
                return Err(e);
            },
        };
        spans.push(span);
        c += 1;
    }
    assert(frame_ok(*p, *map, width, height)) by {
        assert forall|k: u32| k < width implies (#[trigger] spec_column(
            *p,
            *map,
            k,
            width,
            height,
        )) is Ok by {
            assert(spec_column(*p, *map, (k as int) as u32, width, height) == Ok::<
                ColumnSpan,
                RenderError,
            >(spans@[k as int]));
        }
    }
    let ghost w = width as int;
    let mut column: u32 = 0;
    while column < width
        invariant
            width > 0,
            column <= width,
            w == width as int,
            spans@.len() == width,
            buffer@.len() == old(buffer)@.len(),
            old(buffer)@.len() == width as int * height as int * 4,
            forall|j: int|
                0 <= j < buffer@.len() ==> #[trigger] buffer@[j] == if pixel_column(j, w)
                    < column {
                    span_byte(spans@[pixel_column(j, w)], pixel_row(j, w), j % 4)
                } else {
                    old(buffer)@[j]
                },
        decreases width - column,
    {
        let ghost before = buffer@;
        draw_column(buffer, width, height, column, &spans[column as usize]);
        assert forall|j: int| 0 <= j < buffer@.len() implies #[trigger] buffer@[j] == if pixel_column(
            j,
            w,
        ) < column + 1 {
            span_byte(spans@[pixel_column(j, w)], pixel_row(j, w), j % 4)
        } else {
            old(buffer)@[j]
        } by {
            assert(before[j] == buffer@[j] || pixel_column(j, w) == column);
        }
        column += 1;
    }
    proof {
        assert forall|j: int| 0 <= j < old(buffer)@.len() implies #[trigger] buffer@[j]
            == spec_frame_byte(*p, *map, width, height, j) by {
            lemma_byte_in_frame(j, w, height as int);
            let k = pixel_column(j, w);
            assert(spec_column(*p, *map, k as u32, width, height) == Ok::<ColumnSpan, RenderError>(
                spans@[k],
            ));
        }
    }
    Ok(())
}

/// The reference map: walls along `x == 0`, `x == 7` and `y == 0`.
pub open spec fn reference_tile(x: int, y: int) -> u8 {
    if x == 0 || x == 7 || y == 0 {
        1
    } else {
        0
    }
}

/// The reference 8x8 map.
pub fn world_map() -> (r: WorldMap)
    ensures
        forall|x: int, y: int|
            0 <= x < MAP_SIZE && 0 <= y < MAP_SIZE ==> #[trigger] tile(r, x, y) == reference_tile(
                x,
                y,
            ),
{
    let edge: [u8; MAP_SIZE] = [1, 1, 1, 1, 1, 1, 1, 1];
    let inner: [u8; MAP_SIZE] = [1, 0, 0, 0, 0, 0, 0, 0];
    let map: WorldMap = [edge, inner, inner, inner, inner, inner, inner, edge];
    assert forall|x: int, y: int| 0 <= x < MAP_SIZE && 0 <= y < MAP_SIZE implies #[trigger] tile(
        map,
        x,
        y,
    ) == reference_tile(x, y) by {
        assert(map@[x] == if x == 0 || x == 7 {
            edge
        } else {
            inner
        });
    }
    map
}

/// The renderer's state: the camera and the map it looks at.
pub struct Game {
    player: Player,
    map: WorldMap,
}

impl Game {
    pub closed spec fn camera(self) -> Player {
        self.player
    }

    pub closed spec fn world(self) -> WorldMap {
        self.map
    }

    /// The default camera over the reference map.
    pub open spec fn spec_is_default(self) -> bool {
        &&& self.camera() == Player::spec_default()
        &&& forall|x: int, y: int|
            0 <= x < MAP_SIZE && 0 <= y < MAP_SIZE ==> #[trigger] tile(self.world(), x, y)
                == reference_tile(x, y)
    }

    pub fn new() -> (r: Game)
        ensures
            r.spec_is_default(),
    {
        Self::default()
    }

    /// Renders the frame seen by the camera into `pixel_buffer`, a row-major
    /// RGBA frame of `WIDTH` by `HEIGHT` pixels.
    pub fn draw(&self, pixel_buffer: &mut [u8]) -> (r: Result<(), RenderError>)
        requires
            old(pixel_buffer)@.len() == WIDTH as int * HEIGHT as int * 4,
        ensures
            final(pixel_buffer)@.len() == old(pixel_buffer)@.len(),
            r is Ok <==> frame_ok(self.camera(), self.world(), WIDTH, HEIGHT),
            r is Ok ==> forall|j: int|
                0 <= j < old(pixel_buffer)@.len() ==> #[trigger] final(pixel_buffer)@[j]
                    == spec_frame_byte(self.camera(), self.world(), WIDTH, HEIGHT, j),
            r is Err ==> final(pixel_buffer)@ == old(pixel_buffer)@,
    {
        render(&self.player, &self.map, WIDTH, HEIGHT, pixel_buffer)
    }

    /// Whether simulation is suspended; it never is.
    pub fn is_paused(&self) -> (r: bool)
        ensures
            !r,
    {
        false
    }
}

impl Default for Game {
    fn default() -> (r: Game)
        ensures
            r.spec_is_default(),
    {
        Game { player: Player::default(), map: world_map() }
    }
}

/// Through the centre of the view the ray is the facing direction itself: the
/// camera plane contributes nothing when `camera_x` is zero.
pub proof fn lemma_center_ray_is_direction(p: Player)
    ensures
        spec_ray_direction(p, SignedFractionNum::spec_new(0)) == (p.dir_x, p.dir_y),
{
    let zero = SignedFractionNum::spec_new(0);
    assert(zero.raw() == 0);
    assert(p.cam_plane_x.spec_mul(zero).raw() == 0);
    assert(p.cam_plane_y.spec_mul(zero).raw() == 0);
}

/// The middle column of a frame of even width has `camera_x == 0`.
pub proof fn lemma_center_column_camera_x(width: u32)
    requires
        width > 0,
        width % 2 == 0,
    ensures
        spec_camera_x(width / 2, width) == SignedFractionNum::spec_new(0),
{
    let w = width as int;
    let scaled = w * 65536;
    assert(SignedFractionNum::spec_new((width / 2) as i64).raw() == (w / 2) * 65536);
    assert(SignedFractionNum::spec_new((width / 2) as i64).spec_mul_int(2).raw() == scaled);
    assert(SignedFractionNum::spec_new(width as i64).raw() == scaled);
    assert((scaled * 65536) / scaled == 65536) by {
        vstd::arithmetic::div_mod::lemma_fundamental_div_mod_converse(scaled * 65536, scaled, 65536, 0);
    }
    assert(SignedFractionNum::spec_new(1).raw() == 65536);
}

/// A walk whose x side distance is the largest value never advances along x.
proof fn lemma_walk_stays_in_column(
    map: WorldMap,
    s: RaySetup,
    mx: int,
    my: int,
    sx: SignedFractionNum,
    sy: SignedFractionNum,
)
    requires
        0 <= mx < MAP_SIZE,
        0 <= my < MAP_SIZE,
        s.step_x == 1 || s.step_x == -1,
        s.step_y == 1 || s.step_y == -1,
        sx.raw() == i64::MAX,
    ensures
        spec_walk(map, s, mx, my, sx, sy) is Ok ==> spec_walk(map, s, mx, my, sx, sy)->Ok_0.0 == mx
            && spec_walk(map, s, mx, my, sx, sy)->Ok_0.2 == WallHitSide::EW,
    decreases steps_left(s.step_x, mx) + steps_left(s.step_y, my),
{
    let ny = my + s.step_y;
    if 0 <= ny < MAP_SIZE && tile(map, mx, ny) == 0 {
        lemma_walk_stays_in_column(map, s, mx, ny, sx, sy.spec_add(s.delta_dist_y));
    }
}

/// A ray with no x component, cast from a whole-numbered x position, gets the
/// far value as its x delta distance and only ever advances along y: if it
/// meets a wall, the wall is in the camera's own map column and was met on an
/// east-west face.
pub proof fn lemma_axis_aligned_ray_walks_along_y(p: Player, map: WorldMap, column: u32, width: u32)
    requires
        width > 0,
        spec_ray_setup(p, column, width).ray_dir_x.raw() == 0,
        p.pos_x.spec_frac().raw() == 0,
    ensures
        spec_ray_setup(p, column, width).delta_dist_x == spec_far(),
        spec_cast_ray(p, map, column, width) is Ok ==> {
            let hit = spec_cast_ray(p, map, column, width)->Ok_0;
            hit.map_x == p.pos_x.spec_to_integer() && hit.side == WallHitSide::EW
        },
{
    let s = spec_ray_setup(p, column, width);
    let one_minus = SignedFractionNum::spec_new(1).spec_sub(p.pos_x.spec_frac());
    assert(one_minus.raw() == 65536);
    assert((65536 * 0x7fff_ffff_ffff_ffffint) / 65536 == 0x7fff_ffff_ffff_ffffint);
    assert(s.side_dist_x.raw() == i64::MAX);
    let mx = p.pos_x.spec_to_integer() as int;
    let my = p.pos_y.spec_to_integer() as int;
    if 0 <= mx < MAP_SIZE && 0 <= my < MAP_SIZE {
        lemma_walk_stays_in_column(map, s, mx, my, s.side_dist_x, s.side_dist_y);
    }
}

} // verus!
