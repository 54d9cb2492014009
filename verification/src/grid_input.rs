//! Picking: which tile of the grid the mouse points at.

use vstd::prelude::*;
use crate::camera::{Camera, CameraState};
use crate::geometry::Vector2;
use crate::grid::Grid;
use crate::input_state::InputState;

verus! {

/// The tile that is selected when the mouse points at `tile`: that tile where
/// it lies inside the grid, none where it does not.
pub open spec fn selected(grid: &Grid, tile: (int, int)) -> Option<Vector2> {
    if grid.contains(tile.0, tile.1) {
        Some(Vector2 { x: tile.0 as i32, y: tile.1 as i32 })
    } else {
        None
    }
}

/// The tile that is picked when the mouse position is `mouse`: the tile
/// under the mouse where that lies inside the grid, and none where the mouse
/// is not known or points outside the grid.
pub open spec fn picked(grid: &Grid, camera: CameraState, mouse: Option<Vector2>) -> Option<
    Vector2,
> {
    match mouse {
        None => None,
        Some(pixel) => selected(grid, camera.screen_to_tile(pixel)),
    }
}

/// Keeps the tile of the grid that the mouse points at.
pub struct GridInputController {
    selected_tile: Option<Vector2>,
}

impl View for GridInputController {
    type V = Option<Vector2>;

    closed spec fn view(&self) -> Option<Vector2> {
        self.selected_tile
    }
}

impl GridInputController {
    /// A controller with no tile selected.
    pub fn new() -> (controller: Self)
        ensures
            controller@ is None,
    {
        GridInputController { selected_tile: None }
    }

    /// Selects `tile` if it is a tile of the grid, and no tile otherwise.
    pub fn select(&mut self, grid: &Grid, tile: Vector2)
        requires
            grid.wf(),
        ensures
            final(self)@ == selected(grid, (tile.x as int, tile.y as int)),
    {
        self.selected_tile = if grid.get(tile.x, tile.y).is_some() {
            Some(tile)
        } else {
            None
        };
    }

    /// Selects the tile under the mouse, if the mouse is known and points
    /// into the grid, and no tile otherwise.
    pub fn update(&mut self, grid: &Grid, camera: &Camera, input_state: &InputState)
        requires
            grid.wf(),
            camera.wf(),
        ensures
            final(self)@ == picked(grid, camera@, input_state@.mouse_position()),
            input_state@.mouse_position() matches Some(pixel) ==> final(self)@ == selected(
                grid,
                camera@.screen_to_tile_stepwise(pixel),
            ),
    {
        match input_state.mouse_position() {
            None => {
                self.selected_tile = None;
            },
            Some(pixel) => {
                let tile = camera.screen_to_world(pixel).containing_tile();
                self.select(grid, tile);
            },
        }
    }

    /// The tile that was selected by the last update.
    pub fn selected_tile(&self) -> (tile: Option<Vector2>)
        ensures
            tile == self@,
    {
        self.selected_tile
    }
}

/// Keeps the tile of the world that the mouse points at, inside a grid or not.
pub struct GameController {
    selected_tile: Vector2,
}

impl View for GameController {
    type V = Vector2;

    closed spec fn view(&self) -> Vector2 {
        self.selected_tile
    }
}

impl GameController {
    /// A controller that has tile (0, 0) selected.
    pub fn new() -> (controller: Self)
        ensures
            controller@ == (Vector2 { x: 0, y: 0 }),
    {
        GameController { selected_tile: Vector2 { x: 0, y: 0 } }
    }

    /// Selects the tile under the mouse; while the mouse is not known the
    /// selection stays.
    pub fn update(&mut self, input_state: &InputState, camera: &Camera)
        requires
            camera.wf(),
        ensures
            match input_state@.mouse_position() {
                Some(pixel) => {
                    &&& (final(self)@.x as int, final(self)@.y as int) == camera@.screen_to_tile(
                        pixel,
                    )
                    &&& (final(self)@.x as int, final(self)@.y as int)
                        == camera@.screen_to_tile_stepwise(pixel)
                },
                None => final(self)@ == old(self)@,
            },
    {
        match input_state.mouse_position() {
            Some(pixel) => {
                self.selected_tile = camera.screen_to_world(pixel).containing_tile();
            },
            None => {},
        }
    }

    /// The tile that is selected.
    pub fn selected_tile(&self) -> (tile: Vector2)
        ensures
            tile == self@,
    {
        self.selected_tile
    }
}

/// A pick is always a tile of the grid, and it is the tile under the mouse:
/// where a tile is picked, it lies inside the grid and the mouse points at
/// it; where none is, the mouse is not known or points outside the grid.
pub proof fn law_pick_is_inside(grid: &Grid, camera: CameraState, mouse: Option<Vector2>)
    requires
        grid.wf(),
        camera.zoom >= 1,
    ensures
        match picked(grid, camera, mouse) {
            Some(tile) => {
                &&& grid.contains(tile.x as int, tile.y as int)
                &&& mouse matches Some(pixel)
                &&& camera.screen_to_tile(pixel) == (tile.x as int, tile.y as int)
            },
            None => mouse matches Some(pixel) ==> !grid.contains(
                camera.screen_to_tile(pixel).0,
                camera.screen_to_tile(pixel).1,
            ),
        },
{
    grid.lemma_wf();
}

} // verus!
