use warp_horizon::camera::Camera;
use warp_horizon::geometry::Vector2;
use warp_horizon::grid::Grid;
use warp_horizon::grid_input::{GameController, GridInputController};
use warp_horizon::input_state::InputState;

#[test]
fn game_controller_selected_tile_returns_correct_tile_after_mouse_move_event() {
    let mut controller = GameController::new();
    let mut input_state = InputState::new();
    input_state.set_mouse_position(Vector2::new(50, 26 + 15));
    let camera = Camera::new(Vector2::new(100, 50));

    controller.update(&input_state, &camera);

    assert_eq!(controller.selected_tile(), Vector2::new(1, 1));
}

#[test]
fn grid_input_selected_tile_returns_correct_tile_after_mouse_move_event() {
    let mut grid_input = GridInputController::new();
    let mut input_state = InputState::new();
    let camera = Camera::new(Vector2::new(100, 50));
    let grid = Grid::new(Vector2::new(10, 10));

    input_state.set_mouse_position(Vector2::new(50, 26 + 15));
    grid_input.update(&grid, &camera, &input_state);

    assert_eq!(grid_input.selected_tile(), Some(Vector2::new(1, 1)));
}

#[test]
fn selected_tile_returns_none_if_out_of_bounds() {
    let mut grid_input = GridInputController::new();
    let mut input_state = InputState::new();
    let camera = Camera::new(Vector2::new(100, 50));
    let grid = Grid::new(Vector2::new(10, 10));

    input_state.set_mouse_position(Vector2::new(50, 10));
    grid_input.update(&grid, &camera, &input_state);

    assert_eq!(grid_input.selected_tile(), None);
}

#[test]
fn nothing_is_selected_before_the_first_update() {
    assert_eq!(GridInputController::new().selected_tile(), None);
    assert_eq!(GameController::new().selected_tile(), Vector2::new(0, 0));
}

#[test]
fn nothing_is_selected_while_the_mouse_is_unknown_or_out_of_focus() {
    let mut grid_input = GridInputController::new();
    let mut input_state = InputState::new();
    let camera = Camera::new(Vector2::new(100, 50));
    let grid = Grid::new(Vector2::new(10, 10));

    grid_input.update(&grid, &camera, &input_state);
    assert_eq!(grid_input.selected_tile(), None);

    input_state.set_mouse_position(Vector2::new(50, 26));
    grid_input.update(&grid, &camera, &input_state);
    assert_eq!(grid_input.selected_tile(), Some(Vector2::new(0, 0)));

    input_state.set_focused(false);
    grid_input.update(&grid, &camera, &input_state);
    assert_eq!(grid_input.selected_tile(), None);
}

#[test]
fn the_last_tile_of_the_grid_is_selected_and_the_next_is_not() {
    let mut grid_input = GridInputController::new();
    let mut input_state = InputState::new();
    let camera = Camera::new(Vector2::new(100, 50));
    let grid = Grid::new(Vector2::new(10, 10));

    // World (9, 9) lies 9 * 16 pixels below the centre, (10, 10) 16 more.
    input_state.set_mouse_position(Vector2::new(50, 25 + 9 * 16));
    grid_input.update(&grid, &camera, &input_state);
    assert_eq!(grid_input.selected_tile(), Some(Vector2::new(9, 9)));

    input_state.set_mouse_position(Vector2::new(50, 25 + 10 * 16));
    grid_input.update(&grid, &camera, &input_state);
    assert_eq!(grid_input.selected_tile(), None);
}

#[test]
fn the_game_controller_keeps_its_tile_while_the_mouse_is_unknown() {
    let mut controller = GameController::new();
    let mut input_state = InputState::new();
    let camera = Camera::new(Vector2::new(100, 50));
    input_state.set_mouse_position(Vector2::new(50, 25 - 16));
    controller.update(&input_state, &camera);
    assert_eq!(controller.selected_tile(), Vector2::new(-1, -1));
    input_state.set_focused(false);
    controller.update(&input_state, &camera);
    assert_eq!(controller.selected_tile(), Vector2::new(-1, -1));
}

#[test]
fn select_takes_tiles_of_the_grid_and_no_others() {
    let mut grid_input = GridInputController::new();
    let grid = Grid::new(Vector2::new(10, 10));
    grid_input.select(&grid, Vector2::new(0, 0));
    assert_eq!(grid_input.selected_tile(), Some(Vector2::new(0, 0)));
    grid_input.select(&grid, Vector2::new(9, 9));
    assert_eq!(grid_input.selected_tile(), Some(Vector2::new(9, 9)));
    for outside in [Vector2::new(10, 0), Vector2::new(0, 10), Vector2::new(-1, 5), Vector2::new(5, -1)] {
        grid_input.select(&grid, outside);
        assert_eq!(grid_input.selected_tile(), None);
    }
}
