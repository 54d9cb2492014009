use warp_horizon::geometry::Vector2;
use warp_horizon::input_state::{FrontendEvent, GameButton, InputState};

#[test]
fn input_state_key_returns_state_after_setting_key() {
    let mut input_state = InputState::new();
    input_state.set_key(GameButton::MoveCameraRight, true);

    assert!(input_state.key(GameButton::MoveCameraRight));
}

#[test]
fn input_state_key_returns_state_after_update_receives_frontend_event() {
    let mut input_state = InputState::new();

    input_state.update(&vec![FrontendEvent::Press(GameButton::MoveCameraRight)]);
    assert!(input_state.key(GameButton::MoveCameraRight));

    input_state.update(&vec![FrontendEvent::Release(GameButton::MoveCameraRight)]);
    assert!(!input_state.key(GameButton::MoveCameraRight));
}

#[test]
fn key_returns_state_after_update_receives_frontend_events() {
    let mut input_state = InputState::new();

    input_state.update(&vec![FrontendEvent::Press(GameButton::MoveCameraRight)]);
    assert!(input_state.key(GameButton::MoveCameraRight));

    input_state.update(&vec![FrontendEvent::Release(GameButton::MoveCameraRight)]);
    assert!(!input_state.key(GameButton::MoveCameraRight));
}

#[test]
fn input_state_mouse_position_returns_position_after_update_receives_mouse_move() {
    let mut input_state = InputState::new();
    input_state.update(&vec![FrontendEvent::MouseMove(Vector2::new(50, 23))]);
    assert_eq!(input_state.mouse_position(), Some(Vector2::new(50, 23)));
}

#[test]
fn mouse_position_returns_none_after_update_receives_unfocus() {
    let mut input_state = InputState::new();
    let mouse_move = vec![FrontendEvent::MouseMove(Vector2::new(50, 23))];
    let unfocus = vec![FrontendEvent::Unfocus];

    // Initial should be none
    assert!(input_state.mouse_position().is_none());

    // After a move and an unfocus, it should have none
    input_state.update(&mouse_move);
    input_state.update(&unfocus);
    assert!(input_state.mouse_position().is_none());

    // After another mouse update it still should have none
    input_state.update(&mouse_move);
    assert!(input_state.mouse_position().is_none());
}

#[test]
fn a_new_state_has_no_key_down() {
    let input_state = InputState::new();
    for key in [
        GameButton::MoveCameraRight,
        GameButton::MoveCameraLeft,
        GameButton::MoveCameraUp,
        GameButton::MoveCameraDown,
    ] {
        assert!(!input_state.key(key));
    }
}

#[test]
fn buttons_are_counted_from_zero_and_max_ends_the_list() {
    assert_eq!(GameButton::MoveCameraRight.index(), 0);
    assert_eq!(GameButton::MoveCameraLeft.index(), 1);
    assert_eq!(GameButton::MoveCameraUp.index(), 2);
    assert_eq!(GameButton::MoveCameraDown.index(), 3);
    assert_eq!(GameButton::Max.index(), 4);
}

#[test]
fn setting_a_key_leaves_the_others() {
    let mut input_state = InputState::new();
    input_state.set_key(GameButton::MoveCameraUp, true);
    assert!(input_state.key(GameButton::MoveCameraUp));
    assert!(!input_state.key(GameButton::MoveCameraRight));
    assert!(!input_state.key(GameButton::MoveCameraLeft));
    assert!(!input_state.key(GameButton::MoveCameraDown));
}

#[test]
fn update_applies_events_in_order() {
    let mut input_state = InputState::new();
    input_state.update(&[
        FrontendEvent::Press(GameButton::MoveCameraLeft),
        FrontendEvent::MouseMove(Vector2::new(1, 2)),
        FrontendEvent::Release(GameButton::MoveCameraLeft),
        FrontendEvent::Press(GameButton::MoveCameraDown),
        FrontendEvent::MouseMove(Vector2::new(3, 4)),
        FrontendEvent::Unfocus,
        FrontendEvent::Focus,
    ]);
    assert!(!input_state.key(GameButton::MoveCameraLeft));
    assert!(input_state.key(GameButton::MoveCameraDown));
    assert_eq!(input_state.mouse_position(), Some(Vector2::new(3, 4)));
}

#[test]
fn the_mouse_position_comes_back_with_the_focus() {
    let mut input_state = InputState::new();
    input_state.set_mouse_position(Vector2::new(7, 8));
    input_state.set_focused(false);
    assert_eq!(input_state.mouse_position(), None);
    input_state.set_focused(true);
    assert_eq!(input_state.mouse_position(), Some(Vector2::new(7, 8)));
}
