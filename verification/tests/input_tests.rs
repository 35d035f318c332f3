//! Tests for the input state machine: level queries, consuming edge
//! latches, and the movement axes.

use sidekick::input::{Input, Key, MouseButton};

#[test]
fn key_never_pressed_has_no_down_edge() {
    let mut input = Input::new();
    assert!(!input.on_key_down(Key::A));
    assert!(!input.on_key_down(Key::Esc));
    assert!(!input.on_key_up(Key::A));
}

#[test]
fn key_down_edge_fires_exactly_once() {
    let mut input = Input::new();
    input.update_keyboard_input(Key::A.code(), true);
    assert!(input.on_key_down(Key::A));
    assert!(!input.on_key_down(Key::A));
    assert!(!input.on_key_down(Key::A));
}

#[test]
fn key_up_edge_fires_exactly_once() {
    let mut input = Input::new();
    input.update_keyboard_input(Key::Q.code(), true);
    input.update_keyboard_input(Key::Q.code(), false);
    assert!(input.on_key_up(Key::Q));
    assert!(!input.on_key_up(Key::Q));
}

#[test]
fn down_edge_for_other_key_does_not_fire() {
    let mut input = Input::new();
    input.update_keyboard_input(Key::A.code(), true);
    assert!(!input.on_key_down(Key::S));
    // The latch was not consumed by the mismatch.
    assert!(input.on_key_down(Key::A));
}

#[test]
fn later_press_overwrites_edge_buffer() {
    let mut input = Input::new();
    input.update_keyboard_input(Key::A.code(), true);
    input.update_keyboard_input(Key::S.code(), true);
    assert!(!input.on_key_down(Key::A));
    // The mismatch above consumed nothing: S still fires.
    assert!(input.on_key_down(Key::S));
}

#[test]
fn is_key_down_and_up_are_negations() {
    let mut input = Input::new();
    assert!(!input.is_key_down(Key::W));
    assert!(input.is_key_up(Key::W));
    input.update_keyboard_input(Key::W.code(), true);
    assert!(input.is_key_down(Key::W));
    assert!(!input.is_key_up(Key::W));
    input.update_keyboard_input(Key::W.code(), false);
    assert!(!input.is_key_down(Key::W));
    assert!(input.is_key_up(Key::W));
}

#[test]
fn level_state_not_consumed_by_reads() {
    let mut input = Input::new();
    input.update_keyboard_input(Key::D.code(), true);
    assert!(input.is_key_down(Key::D));
    assert!(input.is_key_down(Key::D));
    assert!(input.is_key_down(Key::D));
}

#[test]
fn axis_horizontal_opposing_keys_cancel() {
    let mut input = Input::new();
    input.update_keyboard_input(Key::A.code(), true);
    input.update_keyboard_input(Key::D.code(), true);
    assert_eq!(input.get_axis_horizontal(), 0);
}

#[test]
fn axis_horizontal_right_is_positive() {
    let mut input = Input::new();
    input.update_keyboard_input(Key::D.code(), true);
    assert_eq!(input.get_axis_horizontal(), 1000);
}

#[test]
fn axis_horizontal_left_arrow_is_negative() {
    let mut input = Input::new();
    input.update_keyboard_input(Key::Left.code(), true);
    assert_eq!(input.get_axis_horizontal(), -1000);
}

#[test]
fn axis_horizontal_clamps_doubled_direction() {
    let mut input = Input::new();
    input.update_keyboard_input(Key::D.code(), true);
    input.update_keyboard_input(Key::Right.code(), true);
    assert_eq!(input.get_axis_horizontal(), 1000);
}

#[test]
fn axis_vertical_follows_screen_direction() {
    let mut input = Input::new();
    input.update_keyboard_input(Key::S.code(), true);
    assert_eq!(input.get_axis_vertical(), 1000);
    input.update_keyboard_input(Key::S.code(), false);
    input.update_keyboard_input(Key::Up.code(), true);
    assert_eq!(input.get_axis_vertical(), -1000);
    input.update_keyboard_input(Key::Down.code(), true);
    assert_eq!(input.get_axis_vertical(), 0);
}

#[test]
fn repeat_press_does_not_relatch_edge() {
    let mut input = Input::new();
    input.update_keyboard_input(Key::A.code(), true);
    assert!(input.on_key_down(Key::A));
    // A key-repeat press while held does not produce a new edge.
    input.update_keyboard_input(Key::A.code(), true);
    assert!(!input.on_key_down(Key::A));
    assert!(input.is_key_down(Key::A));
}

#[test]
fn mouse_button_level_and_edge() {
    let mut input = Input::new();
    assert!(input.is_mouse_button_up(MouseButton::Left));
    input.update_mouse_button_input(true, MouseButton::Left);
    assert!(input.is_mouse_button_down(MouseButton::Left));
    assert!(input.on_mouse_button_down(MouseButton::Left));
    assert!(!input.on_mouse_button_down(MouseButton::Left));
    input.update_mouse_button_input(false, MouseButton::Left);
    assert!(input.is_mouse_button_up(MouseButton::Left));
    assert!(input.on_mouse_button_up(MouseButton::Left));
    assert!(!input.on_mouse_button_up(MouseButton::Left));
}

#[test]
fn mouse_buttons_are_independent() {
    let mut input = Input::new();
    input.update_mouse_button_input(true, MouseButton::Right);
    assert!(!input.is_mouse_button_down(MouseButton::Left));
    assert!(input.is_mouse_button_down(MouseButton::Right));
    assert!(!input.on_mouse_button_down(MouseButton::Middle));
}

#[test]
fn mouse_position_and_enter_state() {
    let mut input = Input::new();
    let start = input.mouse_position();
    assert_eq!(start.x, 0);
    assert_eq!(start.y, 0);
    assert!(input.is_mouse_exitted());
    input.update_mouse_position_input(sidekick::types::vector2::Vector2 { x: 12_500, y: 7_000 });
    input.update_mouse_entered_input(true);
    let position = input.mouse_position();
    assert_eq!(position.x, 12_500);
    assert_eq!(position.y, 7_000);
    assert!(input.is_mouse_entered());
    input.update_mouse_entered_input(false);
    assert!(input.is_mouse_exitted());
}

#[test]
fn key_scancodes_match_platform_values() {
    assert_eq!(Key::Esc.code(), 1);
    assert_eq!(Key::A.code(), 30);
    assert_eq!(Key::D.code(), 32);
    assert_eq!(Key::Space.code(), 57);
    assert_eq!(Key::Left.code(), 57419);
    assert_eq!(Key::Meta.code(), 57435);
    assert_eq!(MouseButton::Left.code(), 1);
    assert_eq!(MouseButton::Middle.code(), 3);
}
