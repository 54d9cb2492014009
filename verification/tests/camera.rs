use warp_horizon::camera::{move_direction, Camera};
use warp_horizon::input_state::{GameButton, InputState};
use warp_horizon::geometry::Vector2;

#[test]
fn screen_to_world_returns_correct_tile_at_origin_with_no_zoom() {
    let cam = Camera::new(Vector2::new(100, 50));

    // Origin
    let world1 = cam.screen_to_world(Vector2::new(50, 26)).containing_tile();
    assert_eq!(world1.x, 0);
    assert_eq!(world1.y, 0);

    // Difference in the Y direction
    let world2 = cam.screen_to_world(Vector2::new(50, 26 + 16)).containing_tile();
    assert_eq!(world2.x, 1);
    assert_eq!(world2.y, 1);

    // Difference in the X direction
    let world3 = cam.screen_to_world(Vector2::new(50 + 16, 26)).containing_tile();
    assert_eq!(world3.x, 0);
    assert_eq!(world3.y, -1);

    // More complex position
    let world3 = cam.screen_to_world(Vector2::new(50 + 16, 26 + (16 * 20))).containing_tile();
    assert_eq!(world3.x, 20);
    assert_eq!(world3.y, 19);
}

#[test]
fn screen_to_world_returns_correct_tile_with_zooming() {
    let mut cam = Camera::new(Vector2::new(100, 50));
    cam.set_zoom(4);

    // Origin
    let world1 = cam.screen_to_world(Vector2::new(50, 26)).containing_tile();
    assert_eq!(world1.x, 0);
    assert_eq!(world1.y, 0);

    // Origin + 1 tile size down
    let world2 = cam.screen_to_world(Vector2::new(50, 26 + (16 * 4))).containing_tile();
    assert_eq!(world2.x, 1);
    assert_eq!(world2.y, 1);
}

#[test]
fn screen_to_world_returns_correct_tile_with_position() {
    let mut cam = Camera::new(Vector2::new(100, 50));
    cam.set_position(Vector2::new(-16, 30));

    // Middle of screen
    let world1 = cam.screen_to_world(Vector2::new(50, 26)).containing_tile();
    assert_eq!(world1.x, 1);
    assert_eq!(world1.y, 2);

    // Middle of screen + 1 tile size down
    let world2 = cam.screen_to_world(Vector2::new(50, 26 + 15)).containing_tile();
    assert_eq!(world2.x, 2);
    assert_eq!(world2.y, 3);
}

#[test]
fn a_new_camera_stands_at_the_origin_without_zoom() {
    let cam = Camera::new(Vector2::new(1280, 720));
    assert_eq!(cam.resolution(), Vector2::new(1280, 720));
    assert_eq!(cam.position(), Vector2::new(0, 0));
    assert_eq!(cam.zoom(), 1);
}

#[test]
fn the_centre_of_the_screen_shows_the_origin_at_any_zoom() {
    let mut cam = Camera::new(Vector2::new(1280, 720));
    for zoom in [1, 2, 3, 4, 7, 100] {
        cam.set_zoom(zoom);
        assert_eq!(cam.screen_to_world(Vector2::new(640, 360)).containing_tile(), Vector2::new(0, 0));
    }
}

#[test]
fn a_point_on_a_border_belongs_to_the_tile_that_begins_there() {
    let cam = Camera::new(Vector2::new(100, 50));
    // One pixel above the centre the world coordinates are (-1/16, -1/16).
    assert_eq!(cam.screen_to_world(Vector2::new(50, 24)).containing_tile(), Vector2::new(-1, -1));
    // Exactly on the centre they are (0, 0).
    assert_eq!(cam.screen_to_world(Vector2::new(50, 25)).containing_tile(), Vector2::new(0, 0));
    // Fifteen pixels below they are (15/16, 15/16), sixteen below (1, 1).
    assert_eq!(cam.screen_to_world(Vector2::new(50, 40)).containing_tile(), Vector2::new(0, 0));
    assert_eq!(cam.screen_to_world(Vector2::new(50, 41)).containing_tile(), Vector2::new(1, 1));
    // Thirty-two pixels to the right they are (1, -1).
    assert_eq!(cam.screen_to_world(Vector2::new(81, 25)).containing_tile(), Vector2::new(0, -1));
    assert_eq!(cam.screen_to_world(Vector2::new(82, 25)).containing_tile(), Vector2::new(1, -1));
}

#[test]
fn a_world_unit_takes_sixteen_pixels_per_unit_of_zoom() {
    let mut cam = Camera::new(Vector2::new(100, 50));
    for zoom in [1, 2, 4, 5] {
        cam.set_zoom(zoom);
        for start in [Vector2::new(50, 26), Vector2::new(3, 77), Vector2::new(-40, -9)] {
            let from = cam.screen_to_world(start).containing_tile();
            let down = cam.screen_to_world(Vector2::new(start.x, start.y + 16 * zoom)).containing_tile();
            assert_eq!(down, Vector2::new(from.x + 1, from.y + 1));
            let right = cam.screen_to_world(Vector2::new(start.x + 32 * zoom, start.y)).containing_tile();
            assert_eq!(right, Vector2::new(from.x + 1, from.y - 1));
        }
    }
}

#[test]
fn moving_the_camera_by_whole_tiles_moves_every_pick_alike() {
    let mut cam = Camera::new(Vector2::new(100, 50));
    cam.set_zoom(3);
    let pixels = [Vector2::new(0, 0), Vector2::new(50, 26), Vector2::new(99, 49)];
    let before: Vec<Vector2> = pixels.iter().map(|p| cam.screen_to_world(*p).containing_tile()).collect();
    // Two tile widths to the right, three rows up.
    cam.set_position(Vector2::new(64, -48));
    for (pixel, tile) in pixels.iter().zip(before) {
        assert_eq!(cam.screen_to_world(*pixel).containing_tile(), Vector2::new(tile.x + 2 - 3, tile.y - 3 - 2));
    }
}

#[test]
fn zoom_that_does_not_divide_the_distance_rounds_down() {
    let mut cam = Camera::new(Vector2::new(100, 50));
    cam.set_zoom(3);
    // 47 pixels below the centre are 15 2/3 units of the plane: still tile 0.
    assert_eq!(cam.screen_to_world(Vector2::new(50, 25 + 47)).containing_tile(), Vector2::new(0, 0));
    assert_eq!(cam.screen_to_world(Vector2::new(50, 25 + 48)).containing_tile(), Vector2::new(1, 1));
    assert_eq!(cam.screen_to_world(Vector2::new(50, 25 - 1)).containing_tile(), Vector2::new(-1, -1));
}

#[test]
fn the_farthest_pixels_and_positions_still_give_a_tile() {
    let mut cam = Camera::new(Vector2::new(i32::MAX, i32::MAX));
    cam.set_position(Vector2::new(i32::MIN, i32::MIN));
    cam.set_zoom(i32::MAX);
    let tile = cam.screen_to_world(Vector2::new(i32::MIN, i32::MIN)).containing_tile();
    // (16 + 32) * -2^31 / 512 for the camera, and one more tile for the pixel.
    assert_eq!(tile.x, -201326593);
    assert_eq!(tile.y, -67108865);
}

#[test]
fn held_buttons_give_the_direction_and_opposite_buttons_cancel() {
    let mut input_state = InputState::new();
    assert_eq!(move_direction(&input_state), Vector2::new(0, 0));
    input_state.set_key(GameButton::MoveCameraRight, true);
    input_state.set_key(GameButton::MoveCameraUp, true);
    assert_eq!(move_direction(&input_state), Vector2::new(1, 1));
    input_state.set_key(GameButton::MoveCameraLeft, true);
    assert_eq!(move_direction(&input_state), Vector2::new(0, 1));
    input_state.set_key(GameButton::MoveCameraRight, false);
    input_state.set_key(GameButton::MoveCameraUp, false);
    input_state.set_key(GameButton::MoveCameraDown, true);
    assert_eq!(move_direction(&input_state), Vector2::new(-1, -1));
}
