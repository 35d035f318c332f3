//! Tests for the application state, event dispatch, and the frame clock.

use sidekick::app::{App, AppEvent, MouseIcon};
use sidekick::entities::rectangle::Rectangle;
use sidekick::input::{Key, MouseButton};
use sidekick::rendering::shape::Shape;
use sidekick::time::Time;
use sidekick::types::vector2::Vector2;

#[test]
fn app_defaults() {
    let app = App::new();
    assert_eq!(app.width(), 800);
    assert_eq!(app.height(), 600);
    assert_eq!(app.title(), "Sidekick App");
    assert!(!app.is_resizable());
    assert!(app.is_visible());
    assert!(!app.is_minimized());
    assert!(!app.is_maximized());
    assert!(app.is_decorated());
    assert!(!app.is_always_on_top());
    assert!(!app.is_mouse_confined());
    assert!(app.is_mouse_visible());
    assert!(app.is_focused());
    assert!(!app.is_quit_requested());
    assert_eq!(app.shapes.len(), 0);
}

#[test]
fn app_setters_record_configuration() {
    let mut app = App::new();
    app.set_size(1024, 768);
    assert_eq!(app.width(), 1024);
    assert_eq!(app.height(), 768);
    app.set_width(640);
    app.set_height(480);
    let size = app.size();
    assert_eq!(size, Vector2 { x: 640_000, y: 480_000 });
    app.set_title("Pong");
    assert_eq!(app.title(), "Pong");
    app.set_resizable(true);
    assert!(app.is_resizable());
    app.set_visible(false);
    assert!(!app.is_visible());
    app.set_minimized(true);
    assert!(app.is_minimized());
    app.set_maximized(true);
    assert!(app.is_maximized());
    app.set_decorated(false);
    assert!(!app.is_decorated());
    app.set_always_on_top(true);
    assert!(app.is_always_on_top());
    app.set_mouse_confined(true);
    assert!(app.is_mouse_confined());
    app.set_mouse_visible(false);
    assert!(!app.is_mouse_visible());
    app.set_mouse_icon(MouseIcon::Crosshair);
    assert!(matches!(app.mouse_icon(), MouseIcon::Crosshair));
}

#[test]
fn quit_sets_the_flag_once_asked() {
    let mut app = App::new();
    app.quit();
    assert!(app.is_quit_requested());
}

#[test]
fn events_drive_input_and_flags() {
    let mut app = App::new();
    app.handle_event(AppEvent::Keyboard { scancode: Key::W.code(), pressed: true });
    assert!(app.input.is_key_down(Key::W));
    assert!(app.input.on_key_down(Key::W));
    app.handle_event(AppEvent::Keyboard { scancode: Key::W.code(), pressed: false });
    assert!(app.input.is_key_up(Key::W));

    app.handle_event(AppEvent::MouseButton { button: MouseButton::Right, pressed: true });
    assert!(app.input.is_mouse_button_down(MouseButton::Right));

    app.handle_event(AppEvent::CursorMoved { position: Vector2 { x: 5_000, y: 6_000 } });
    assert_eq!(app.input.mouse_position(), Vector2 { x: 5_000, y: 6_000 });

    app.handle_event(AppEvent::CursorEntered);
    assert!(app.input.is_mouse_entered());
    app.handle_event(AppEvent::CursorLeft);
    assert!(app.input.is_mouse_exitted());

    app.handle_event(AppEvent::Focused { is_focused: false });
    assert!(!app.is_focused());

    assert!(!app.is_quit_requested());
    app.handle_event(AppEvent::CloseRequested);
    assert!(app.is_quit_requested());
}

#[test]
fn frame_pipeline_moves_entity_by_axis() {
    let mut app = App::new();
    let mut player = Rectangle::new();
    // The platform delivers a key press; the per-frame update reads the
    // axis and moves the player; the draw step projects it to the screen.
    app.handle_event(AppEvent::Keyboard { scancode: Key::D.code(), pressed: true });
    let axis = app.input.get_axis_horizontal();
    player.game_object.translate(Vector2 { x: 5 * axis, y: 0 });
    player.draw(&mut app);
    assert_eq!(player.game_object.transform.position, Vector2 { x: 5000, y: 0 });
    match app.shapes[0] {
        Shape::Rect { top_left, .. } => {
            assert_eq!(top_left, Vector2 { x: 380_000, y: 275_000 });
        }
        _ => panic!("expected a rectangle shape"),
    }
}

#[test]
fn clock_defaults() {
    let time = Time::new();
    assert_eq!(time.time_scale, 1000);
    assert_eq!(time.target_frame_rate, 60);
    assert_eq!(time.frame_time(), 0);
    // 1/60 s in fixed point, rounded down.
    assert_eq!(time.fixed_frame_time(), 16);
}

#[test]
fn clock_update_measures_frame_time() {
    let mut time = Time::new();
    time.update(16);
    assert_eq!(time.frame_time(), 16);
    time.update(48);
    assert_eq!(time.frame_time(), 32);
    // 1000 / 32 = 31 frames per second, rounded down.
    assert_eq!(time.frame_rate(), 31);
}

#[test]
fn clock_frame_rate_of_instant_frame_saturates() {
    let time = Time::new();
    assert_eq!(time.frame_rate(), u32::MAX);
}

#[test]
fn clock_wait_time_fills_the_frame_budget() {
    let time = Time::new();
    assert_eq!(time.wait_time(10), 6);
    assert_eq!(time.wait_time(16), 0);
    // An overrun frame waits nothing.
    assert_eq!(time.wait_time(100), 0);
}
