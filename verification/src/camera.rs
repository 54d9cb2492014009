//! The camera: from a pixel of the screen to the tile of the world under it.
//!
//! A screen pixel is first taken to the render plane: its distance from the
//! centre of the screen, divided by the zoom, is added to the camera's
//! position.  A point of the render plane is then taken to the world: a tile
//! is a rhombus `TILE_WIDTH` wide, and rows of tiles lie `TILE_HEIGHT + 1`
//! apart, one unit more than a tile's image is high, because tiles are drawn
//! one unit into each other; going right by `TILE_WIDTH` adds (1, -1) to the
//! world coordinates, going down by `TILE_HEIGHT + 1` adds (1, 1).  The tile
//! under a point is the floor of its world coordinates.
//!
//! The camera stands on a whole point of the render plane, so every step is
//! exact: coordinates are kept as whole numerators over a common denominator
//! until the floor is taken.

use vstd::arithmetic::div_mod::{lemma_fundamental_div_mod, lemma_fundamental_div_mod_converse};
use vstd::prelude::*;
use crate::geometry::Vector2;
use crate::input_state::{GameButton, InputState, InputView};

verus! {

/// The width of a tile in the render plane.
pub const TILE_WIDTH: i32 = 32;

/// The height of a tile's image.  Tiles are drawn one unit into each other,
/// so that rows are `TILE_HEIGHT + 1` apart.
pub const TILE_HEIGHT: i32 = 15;

/// Half of `r`, rounded towards zero.
pub open spec fn half(r: int) -> int {
    if r >= 0 {
        r / 2
    } else {
        -((-r) / 2)
    }
}

/// The floor of `n / d`.
fn floor_div(n: i128, d: i128) -> (q: i128)
    requires
        d > 0,
    ensures
        q == n as int / d as int,
{
    if n >= 0 {
        n / d
    } else {
        let m = -(n + 1);
        proof {
            let q = m as int / d as int;
            let r = m as int % d as int;
            lemma_fundamental_div_mod(m as int, d as int);
            assert(n as int == (-q - 1) * d + (d - r - 1)) by (nonlinear_arith)
                requires
                    m as int == d * q + r,
                    n as int == -(m as int) - 1,
            ;
            lemma_fundamental_div_mod_converse(n as int, d as int, -q - 1, d - r - 1);
        }
        -(m / d) - 1
    }
}

/// What a camera holds, as mathematics.
pub struct CameraState {
    /// The size of the screen in pixels.
    pub resolution: Vector2,
    /// The point of the render plane that the centre of the screen shows.
    pub position: Vector2,
    /// How many screen pixels one unit of the render plane takes.
    pub zoom: i32,
}

impl CameraState {
    /// The distance of the pixel from the centre of the screen.
    pub open spec fn from_center(self, value: Vector2) -> (int, int) {
        (value.x - half(self.resolution.x as int), value.y - half(self.resolution.y as int))
    }

    /// The point of the render plane under the pixel, times the zoom.
    pub open spec fn screen_to_renderplane(self, value: Vector2) -> (int, int) {
        (
            self.zoom * self.position.x + self.from_center(value).0,
            self.zoom * self.position.y + self.from_center(value).1,
        )
    }

    /// What the world coordinates under the pixel are counted in: one tile is
    /// this many units, the product of the tile's width, 32, the distance of
    /// its rows, 16, and the zoom.
    pub open spec fn world_scale(self) -> int {
        512 * self.zoom
    }

    /// The world coordinates under the pixel, in units of which
    /// `world_scale()` make a tile: a 32nd of the plane's x and a 16th of its
    /// y for the world's x, the same less the first for the world's y.
    pub open spec fn screen_to_world(self, value: Vector2) -> (int, int) {
        let plane = self.screen_to_renderplane(value);
        (16 * plane.0 + 32 * plane.1, 32 * plane.1 - 16 * plane.0)
    }

    /// The tile under the pixel: the floor of the world coordinates, so that
    /// a point on the border of two tiles belongs to the one that begins there.
    pub open spec fn screen_to_tile(self, value: Vector2) -> (int, int) {
        (
            self.screen_to_world(value).0 / self.world_scale(),
            self.screen_to_world(value).1 / self.world_scale(),
        )
    }

    /// The tile under the pixel, worked out in two whole divisions: the
    /// pixel's share of the world coordinates is divided by the zoom and
    /// rounded down, added to the camera's share, and the sum is divided by
    /// the 512 units of a tile and rounded down.
    pub open spec fn screen_to_tile_stepwise(self, value: Vector2) -> (int, int) {
        let pixel = self.from_center(value);
        (
            (16 * self.position.x + 32 * self.position.y + (16 * pixel.0 + 32 * pixel.1) / (
            self.zoom as int)) / 512,
            (32 * self.position.y - 16 * self.position.x + (32 * pixel.1 - 16 * pixel.0) / (
            self.zoom as int)) / 512,
        )
    }
}

/// The way the camera is asked to move: one step right for the right button
/// and one left for the left, one up for the up button and one down for the
/// down; opposite buttons cancel.
pub open spec fn spec_move_direction(input: InputView) -> Vector2 {
    let step = |button: GameButton| if input.keys[button.spec_index()] { 1int } else { 0int };
    Vector2 {
        x: (step(GameButton::MoveCameraRight) - step(GameButton::MoveCameraLeft)) as i32,
        y: (step(GameButton::MoveCameraUp) - step(GameButton::MoveCameraDown)) as i32,
    }
}

/// The way the camera is asked to move by the buttons that are held down.
/// How far it moves is the caller's to work out, from its speed and the time
/// that has passed.
pub fn move_direction(state: &InputState) -> (direction: Vector2)
    requires
        state.wf(),
    ensures
        direction == spec_move_direction(state@),
{
    let mut direction = Vector2 { x: 0, y: 0 };
    if state.key(GameButton::MoveCameraRight) {
        direction.x += 1;
    }
    if state.key(GameButton::MoveCameraLeft) {
        direction.x -= 1;
    }
    if state.key(GameButton::MoveCameraUp) {
        direction.y += 1;
    }
    if state.key(GameButton::MoveCameraDown) {
        direction.y -= 1;
    }
    direction
}

/// A camera that stands on a whole point of the render plane.
pub struct Camera {
    resolution: Vector2,
    position: Vector2,
    zoom: i32,
}

impl View for Camera {
    type V = CameraState;

    closed spec fn view(&self) -> CameraState {
        CameraState { resolution: self.resolution, position: self.position, zoom: self.zoom }
    }
}

impl Camera {
    /// The zoom is at least 1.
    pub open spec fn wf(&self) -> bool {
        self@.zoom >= 1
    }

    /// A camera for a screen of the given size, at the origin, not zoomed.
    pub fn new(resolution: Vector2) -> (camera: Self)
        ensures
            camera.wf(),
            camera@ == (CameraState { resolution, position: Vector2 { x: 0, y: 0 }, zoom: 1 }),
    {
        Camera { resolution, position: Vector2 { x: 0, y: 0 }, zoom: 1 }
    }

    /// The size of the screen.
    pub fn resolution(&self) -> (resolution: Vector2)
        ensures
            resolution == self@.resolution,
    {
        self.resolution
    }

    /// The point of the render plane at the centre of the screen.
    pub fn position(&self) -> (position: Vector2)
        ensures
            position == self@.position,
    {
        self.position
    }

    /// Moves the camera to the given point.
    pub fn set_position(&mut self, value: Vector2)
        ensures
            final(self)@ == (CameraState { position: value, ..old(self)@ }),
    {
        self.position = value;
    }

    /// The zoom factor.
    pub fn zoom(&self) -> (zoom: i32)
        ensures
            zoom == self@.zoom,
    {
        self.zoom
    }

    /// Sets the zoom factor, which is at least 1.
    pub fn set_zoom(&mut self, value: i32)
        requires
            value >= 1,
        ensures
            final(self).wf(),
            final(self)@ == (CameraState { zoom: value, ..old(self)@ }),
    {
        self.zoom = value;
    }

    /// The world coordinates under the screen pixel `value`, kept exactly.
    pub fn screen_to_world(&self, value: Vector2) -> (world: WorldCoordinate)
        requires
            self.wf(),
        ensures
            world.wf(),
            world.numerators() == self@.screen_to_world(value),
            world.scale() == self@.world_scale(),
            world.spec_containing_tile() == self@.screen_to_tile(value),
            world.spec_containing_tile() == self@.screen_to_tile_stepwise(value),
    {
        let zoom = self.zoom as i128;
        let center_x = half_of(self.resolution.x);
        let center_y = half_of(self.resolution.y);
        proof {
            lemma_zoomed_bound(zoom as int, self.position.x as int);
            lemma_zoomed_bound(zoom as int, self.position.y as int);
        }
        let plane_x: i128 = zoom * (self.position.x as i128) + (value.x as i128 - center_x as i128);
        let plane_y: i128 = zoom * (self.position.y as i128) + (value.y as i128 - center_y as i128);
        let width = TILE_WIDTH as i128;
        let height = (TILE_HEIGHT + 1) as i128;
        assert(width == 32 && height == 16);
        let across: i128 = height * plane_x;
        let down: i128 = width * plane_y;
        assert(width * height * zoom == 512 * zoom) by (nonlinear_arith)
            requires
                width == 32,
                height == 16,
        ;
        let world = WorldCoordinate { x: across + down, y: down - across, scale: width * height * zoom };
        proof {
            let bound = 0x8000_0000 * (zoom as int);
            assert(-3 * bound <= plane_x <= 3 * bound);
            assert(-3 * bound <= plane_y <= 3 * bound);
            assert(across == 16 * plane_x);
            assert(down == 32 * plane_y);
            assert(-144 * bound <= world.x <= 144 * bound);
            assert(-144 * bound <= world.y <= 144 * bound);
            lemma_tile_fits(world.x as int, zoom as int);
            lemma_tile_fits(world.y as int, zoom as int);
            law_stepwise_is_exact(self@, value);
        }
        world
    }
}

/// World coordinates, kept exactly as whole numerators over a common
/// denominator.
pub struct WorldCoordinate {
    x: i128,
    y: i128,
    scale: i128,
}

impl WorldCoordinate {
    /// The numerators of the two coordinates.
    pub closed spec fn numerators(&self) -> (int, int) {
        (self.x as int, self.y as int)
    }

    /// The denominator of both coordinates: how many units make a tile.
    pub closed spec fn scale(&self) -> int {
        self.scale as int
    }

    /// The tile that holds the point: the floor of each coordinate.
    pub open spec fn spec_containing_tile(&self) -> (int, int) {
        (self.numerators().0 / self.scale(), self.numerators().1 / self.scale())
    }

    /// The denominator is positive and the tile that holds the point can be
    /// written in 32 bits.
    pub open spec fn wf(&self) -> bool {
        &&& self.scale() >= 1
        &&& -0x8000_0000 <= self.spec_containing_tile().0 < 0x8000_0000
        &&& -0x8000_0000 <= self.spec_containing_tile().1 < 0x8000_0000
    }

    /// The tile that holds the point.  A point on the border of two tiles
    /// belongs to the one that begins there.
    pub fn containing_tile(&self) -> (tile: Vector2)
        requires
            self.wf(),
        ensures
            (tile.x as int, tile.y as int) == self.spec_containing_tile(),
    {
        let x = floor_div(self.x, self.scale);
        let y = floor_div(self.y, self.scale);
        Vector2 { x: x as i32, y: y as i32 }
    }
}

/// Half of `r`, rounded towards zero.
fn half_of(r: i32) -> (h: i64)
    ensures
        h == half(r as int),
        -0x4000_0000 <= h <= 0x4000_0000,
{
    let wide = r as i64;
    if wide >= 0 {
        wide / 2
    } else {
        -((-wide) / 2)
    }
}

/// Dividing `zoom * a + b` by `scale * zoom` comes to the same as dividing
/// `b` by `zoom` first, rounding down, and then `a` and that by `scale`.
proof fn lemma_divide_in_steps(a: int, b: int, zoom: int, scale: int)
    requires
        zoom >= 1,
        scale >= 1,
    ensures
        (zoom * a + b) / (scale * zoom) == (a + b / zoom) / scale,
{
    let q = b / zoom;
    let r = b % zoom;
    lemma_fundamental_div_mod(b, zoom);
    let t = (a + q) / scale;
    let s = (a + q) % scale;
    lemma_fundamental_div_mod(a + q, scale);
    assert(zoom * a + b == t * (scale * zoom) + (zoom * s + r)) by (nonlinear_arith)
        requires
            b == zoom * q + r,
            a + q == scale * t + s,
    ;
    assert(0 <= zoom * s + r < scale * zoom) by (nonlinear_arith)
        requires
            0 <= r < zoom,
            0 <= s < scale,
    ;
    assert(scale * zoom > 0) by (nonlinear_arith)
        requires
            zoom >= 1,
            scale >= 1,
    ;
    lemma_fundamental_div_mod_converse(zoom * a + b, scale * zoom, t, zoom * s + r);
}

/// The two ways of working out the tile under a pixel agree: rounding down
/// after the division by the zoom loses nothing.
pub proof fn law_stepwise_is_exact(camera: CameraState, value: Vector2)
    requires
        camera.zoom >= 1,
    ensures
        camera.screen_to_tile(value) == camera.screen_to_tile_stepwise(value),
{
    let pixel = camera.from_center(value);
    let zoom = camera.zoom as int;
    let a_x = 16 * camera.position.x + 32 * camera.position.y;
    let b_x = 16 * pixel.0 + 32 * pixel.1;
    let a_y = 32 * camera.position.y - 16 * camera.position.x;
    let b_y = 32 * pixel.1 - 16 * pixel.0;
    assert(camera.screen_to_world(value).0 == zoom * a_x + b_x) by (nonlinear_arith)
        requires
            camera.screen_to_world(value).0 == 16 * (zoom * camera.position.x + pixel.0) + 32 * (
            zoom * camera.position.y + pixel.1),
            a_x == 16 * camera.position.x + 32 * camera.position.y,
            b_x == 16 * pixel.0 + 32 * pixel.1,
    ;
    assert(camera.screen_to_world(value).1 == zoom * a_y + b_y) by (nonlinear_arith)
        requires
            camera.screen_to_world(value).1 == 32 * (zoom * camera.position.y + pixel.1) - 16 * (
            zoom * camera.position.x + pixel.0),
            a_y == 32 * camera.position.y - 16 * camera.position.x,
            b_y == 32 * pixel.1 - 16 * pixel.0,
    ;
    lemma_divide_in_steps(a_x, b_x, zoom, 512);
    lemma_divide_in_steps(a_y, b_y, zoom, 512);
}

/// World coordinates that are within 144 * 2^31 tiles' worth of units per
/// unit of zoom have a floor that fits 32 bits.
proof fn lemma_tile_fits(world: int, zoom: int)
    requires
        zoom >= 1,
        -144 * (0x8000_0000 * zoom) <= world <= 144 * (0x8000_0000 * zoom),
    ensures
        -0x8000_0000 <= world / (512 * zoom) < 0x8000_0000,
{
    let d = 512 * zoom;
    let q = world / d;
    let r = world % d;
    lemma_fundamental_div_mod(world, d);
    assert(q < 0x8000_0000) by (nonlinear_arith)
        requires
            world == d * q + r,
            0 <= r,
            d == 512 * zoom,
            zoom >= 1,
            world <= 144 * (0x8000_0000 * zoom),
    ;
    assert(q >= -0x8000_0000) by (nonlinear_arith)
        requires
            world == d * q + r,
            r < d,
            d == 512 * zoom,
            zoom >= 1,
            world >= -144 * (0x8000_0000 * zoom),
    ;
}

/// A product of a zoom factor and a 32-bit quantity is within 2^31 per unit
/// of zoom.
proof fn lemma_zoomed_bound(zoom: int, p: int)
    requires
        1 <= zoom <= 0x7fff_ffff,
        -0x8000_0000 <= p <= 0x7fff_ffff,
    ensures
        -0x8000_0000 * zoom <= zoom * p <= 0x8000_0000 * zoom,
        -0x4000_0000_0000_0000 <= zoom * p <= 0x4000_0000_0000_0000,
{
    assert(-0x8000_0000 * zoom <= zoom * p <= 0x8000_0000 * zoom) by (nonlinear_arith)
        requires
            1 <= zoom,
            -0x8000_0000 <= p <= 0x7fff_ffff,
    ;
}

/// Adding `k` times the divisor to the dividend adds `k` to the floor of the
/// quotient.
proof fn lemma_floor_shifts(n: int, d: int, k: int)
    requires
        d > 0,
    ensures
        (n + k * d) / d == n / d + k,
{
    lemma_fundamental_div_mod(n, d);
    assert(n + k * d == (n / d + k) * d + n % d) by (nonlinear_arith)
        requires
            n == d * (n / d) + n % d,
    ;
    lemma_fundamental_div_mod_converse(n + k * d, d, n / d + k, n % d);
}

/// With the camera at the origin, the pixel at the centre of the screen
/// shows the corner where tile (0, 0) begins, whatever the zoom.
pub proof fn law_center_shows_origin(camera: CameraState, center: Vector2)
    requires
        camera.zoom >= 1,
        camera.position == (Vector2 { x: 0, y: 0 }),
        center.x == half(camera.resolution.x as int),
        center.y == half(camera.resolution.y as int),
    ensures
        camera.screen_to_world(center) == (0int, 0int),
        camera.screen_to_tile(center) == (0int, 0int),
{
    assert(camera.zoom * 0 == 0);
    assert(camera.screen_to_renderplane(center) == (0int, 0int));
    assert(0int / camera.world_scale() == 0) by (nonlinear_arith)
        requires
            camera.world_scale() > 0,
    ;
}

/// One world unit is 16 pixels of the screen for each unit of zoom: going
/// down the screen by `16 * zoom` pixels adds one to both world coordinates,
/// and going right by `32 * zoom` pixels adds one to the first and takes one
/// from the second.  So a world unit that is crossed in 16 pixels at zoom 1
/// takes 64 at zoom 4.
pub proof fn law_zoom_scales_steps(camera: CameraState, from: Vector2, to: Vector2)
    requires
        camera.zoom >= 1,
    ensures
        to.x == from.x && to.y == from.y + 16 * camera.zoom ==> {
            &&& camera.screen_to_world(to).0 == camera.screen_to_world(from).0
                + camera.world_scale()
            &&& camera.screen_to_world(to).1 == camera.screen_to_world(from).1
                + camera.world_scale()
            &&& camera.screen_to_tile(to) == (
                camera.screen_to_tile(from).0 + 1,
                camera.screen_to_tile(from).1 + 1,
            )
        },
        to.y == from.y && to.x == from.x + 32 * camera.zoom ==> {
            &&& camera.screen_to_world(to).0 == camera.screen_to_world(from).0
                + camera.world_scale()
            &&& camera.screen_to_world(to).1 == camera.screen_to_world(from).1
                - camera.world_scale()
            &&& camera.screen_to_tile(to) == (
                camera.screen_to_tile(from).0 + 1,
                camera.screen_to_tile(from).1 - 1,
            )
        },
{
    let scale = camera.world_scale();
    lemma_floor_shifts(camera.screen_to_world(from).0, scale, 1);
    lemma_floor_shifts(camera.screen_to_world(from).1, scale, 1);
    lemma_floor_shifts(camera.screen_to_world(from).1, scale, -1);
}

/// Moving the camera moves what every pixel shows by as much: the point of
/// the render plane under a pixel moves by the camera's own move, its world
/// coordinates by what that move comes to in the world, and where the move
/// is `across` tile widths and `down` row distances, the tile under every
/// pixel changes by `(across + down, down - across)`.
pub proof fn law_position_shifts(
    camera: CameraState,
    moved: CameraState,
    value: Vector2,
    across: int,
    down: int,
)
    requires
        camera.zoom >= 1,
        moved.zoom == camera.zoom,
        moved.resolution == camera.resolution,
    ensures
        moved.screen_to_renderplane(value).0 - camera.screen_to_renderplane(value).0
            == camera.zoom * (moved.position.x - camera.position.x),
        moved.screen_to_renderplane(value).1 - camera.screen_to_renderplane(value).1
            == camera.zoom * (moved.position.y - camera.position.y),
        moved.position.x == camera.position.x + 32 * across && moved.position.y
            == camera.position.y + 16 * down ==> {
            &&& moved.screen_to_world(value).0 == camera.screen_to_world(value).0 + (across + down)
                * camera.world_scale()
            &&& moved.screen_to_world(value).1 == camera.screen_to_world(value).1 + (down - across)
                * camera.world_scale()
            &&& moved.screen_to_tile(value) == (
                camera.screen_to_tile(value).0 + across + down,
                camera.screen_to_tile(value).1 + down - across,
            )
        },
{
    let zoom = camera.zoom as int;
    let dx = moved.position.x - camera.position.x;
    let dy = moved.position.y - camera.position.y;
    assert(zoom * moved.position.x == zoom * camera.position.x + zoom * dx) by (nonlinear_arith)
        requires
            dx == moved.position.x - camera.position.x,
    ;
    assert(zoom * moved.position.y == zoom * camera.position.y + zoom * dy) by (nonlinear_arith)
        requires
            dy == moved.position.y - camera.position.y,
    ;
    if dx == 32 * across && dy == 16 * down {
        let scale = camera.world_scale();
        assert(16 * (zoom * dx) + 32 * (zoom * dy) == (across + down) * scale) by (nonlinear_arith)
            requires
                dx == 32 * across,
                dy == 16 * down,
                scale == 512 * zoom,
        ;
        assert(32 * (zoom * dy) - 16 * (zoom * dx) == (down - across) * scale) by (nonlinear_arith)
            requires
                dx == 32 * across,
                dy == 16 * down,
                scale == 512 * zoom,
        ;
        lemma_floor_shifts(camera.screen_to_world(value).0, scale, across + down);
        lemma_floor_shifts(camera.screen_to_world(value).1, scale, down - across);
    }
}

} // verus!
