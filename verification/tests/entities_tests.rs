//! Tests for game objects, the camera shake state machine, and the
//! screen-space projection of the drawable entities.

use sidekick::app::App;
use sidekick::entities::circle::Circle;
use sidekick::entities::game_object::GameObject;
use sidekick::entities::game_view::GameView;
use sidekick::entities::line::Line;
use sidekick::entities::rectangle::Rectangle;
use sidekick::entities::triangle::Triangle;
use sidekick::entities::game_object::RenderLayer;
use sidekick::rendering::shape::Shape;
use sidekick::types::vector2::Vector2;

#[test]
fn rotate_full_turn_resets_to_zero() {
    let mut object = GameObject::new();
    object.rotate(370_000);
    assert_eq!(object.transform.rotation, 0);
}

#[test]
fn rotate_partial_turns_accumulate() {
    let mut object = GameObject::new();
    object.rotate(350_000);
    assert_eq!(object.transform.rotation, 350_000);
    object.rotate(5_000);
    assert_eq!(object.transform.rotation, 355_000);
    // 355 + 10 reaches a full turn and resets.
    object.rotate(10_000);
    assert_eq!(object.transform.rotation, 0);
    // Negative rotations are kept as they are.
    object.rotate(-90_000);
    assert_eq!(object.transform.rotation, -90_000);
}

#[test]
fn game_object_defaults_and_movement() {
    let mut object = GameObject::new();
    assert!(object.is_visible);
    assert!(!object.is_parallax);
    assert!(!object.is_bounded);
    assert_eq!(object.transform.position, Vector2 { x: 0, y: 0 });
    assert_eq!(object.transform.size, Vector2 { x: 50_000, y: 50_000 });
    assert_eq!(object.transform.radius, 0);
    object.translate(Vector2 { x: 1000, y: -2000 });
    object.translate(Vector2 { x: 500, y: 500 });
    assert_eq!(object.transform.position, Vector2 { x: 1500, y: -1500 });
    object.scale(Vector2 { x: 10_000, y: -10_000 });
    assert_eq!(object.transform.size, Vector2 { x: 60_000, y: 40_000 });
    object.destroy();
    assert_eq!(object.transform.position, Vector2 { x: 1500, y: -1500 });
}

#[test]
fn shake_stays_within_intensity_and_restores_exactly() {
    let mut view = GameView::new();
    view.game_object.transform.position = Vector2 { x: 7_000, y: -3_000 };
    // intensity 10.0, duration 0.5 s, decay factor 1.0
    view.start_shaking(10_000, 500, 1_000);
    assert!(view.is_shaking);
    // Each 0.2 s frame keeps the camera within intensity of the origin.
    view.shake(200);
    assert!(view.is_shaking);
    assert!((view.game_object.transform.position.x - 7_000).abs() <= 10_000);
    assert!((view.game_object.transform.position.y + 3_000).abs() <= 10_000);
    view.shake(200);
    assert!(view.is_shaking);
    assert!((view.game_object.transform.position.x - 7_000).abs() <= 10_000);
    // The third frame exhausts the 0.5 s budget (0.6 >= 0.5).
    view.shake(200);
    assert!(!view.is_shaking);
    assert_eq!(view.game_object.transform.position, Vector2 { x: 7_000, y: -3_000 });
}

#[test]
fn shake_single_frame_exhaustion() {
    let mut view = GameView::new();
    view.start_shaking(10_000, 500, 1_000);
    // One 0.5 s frame uses up the whole duration at decay 1.0.
    view.shake(500);
    assert!(!view.is_shaking);
    assert_eq!(view.game_object.transform.position, Vector2 { x: 0, y: 0 });
}

#[test]
fn stop_shaking_early_restores_position() {
    let mut view = GameView::new();
    view.game_object.transform.position = Vector2 { x: 100, y: 200 };
    view.start_shaking(5_000, 1_000, 1_000);
    view.shake(100);
    view.stop_shaking();
    assert!(!view.is_shaking);
    assert_eq!(view.game_object.transform.position, Vector2 { x: 100, y: 200 });
    assert_eq!(view.original_position, Vector2 { x: 0, y: 0 });
}

#[test]
fn bounded_rectangle_clamps_to_screen() {
    let mut app = App::new();
    let mut rect = Rectangle::new();
    rect.game_object.is_bounded = true;
    rect.game_object.transform.size = Vector2 { x: 20_000, y: 80_000 };
    // Move the rectangle far off the right edge of the 800x600 view.
    rect.game_object.transform.position = Vector2 { x: 1_000_000, y: 0 };
    rect.draw(&mut app);
    // World x clamped to 400 - 10 = 390 units.
    assert_eq!(rect.game_object.transform.position.x, 390_000);
    assert_eq!(app.shapes.len(), 1);
    match app.shapes[0] {
        Shape::Rect { top_left, bottom_right, .. } => {
            // screen_x spans [780, 800]: flush against the right edge.
            assert_eq!(top_left.x, 780_000);
            assert_eq!(bottom_right.x, 800_000);
            assert!(bottom_right.x <= 800_000);
            assert!(top_left.x >= 0);
            // Vertically centered: [260, 340].
            assert_eq!(top_left.y, 260_000);
            assert_eq!(bottom_right.y, 340_000);
        },
        _ => panic!("expected a rectangle shape"),
    }
}

#[test]
fn bounded_rectangle_clamps_to_left_edge() {
    let mut app = App::new();
    let mut rect = Rectangle::new();
    rect.game_object.is_bounded = true;
    rect.game_object.transform.size = Vector2 { x: 20_000, y: 80_000 };
    rect.game_object.transform.position = Vector2 { x: -1_000_000, y: 0 };
    rect.draw(&mut app);
    assert_eq!(rect.game_object.transform.position.x, -390_000);
    match app.shapes[0] {
        Shape::Rect { top_left, bottom_right, .. } => {
            assert_eq!(top_left.x, 0);
            assert_eq!(bottom_right.x, 20_000);
        },
        _ => panic!("expected a rectangle shape"),
    }
}

#[test]
fn repeated_draw_replaces_slot_not_appends() {
    let mut app = App::new();
    let mut rect = Rectangle::new();
    rect.draw(&mut app);
    assert_eq!(app.shapes.len(), 1);
    rect.draw(&mut app);
    assert_eq!(app.shapes.len(), 1);
    rect.game_object.translate(Vector2 { x: 10_000, y: 0 });
    rect.draw(&mut app);
    assert_eq!(app.shapes.len(), 1);
}

#[test]
fn two_entities_keep_their_own_slots() {
    let mut app = App::new();
    let mut rect = Rectangle::new();
    let mut circle = Circle::new();
    circle.game_object.transform.radius = 5_000;
    rect.draw(&mut app);
    circle.draw(&mut app);
    assert_eq!(app.shapes.len(), 2);
    // Redrawing the circle replaces its slot only.
    circle.draw(&mut app);
    assert_eq!(app.shapes.len(), 2);
}

#[test]
fn invisible_entity_submits_nothing_and_gives_up_slot() {
    let mut app = App::new();
    let mut rect = Rectangle::new();
    rect.draw(&mut app);
    assert_eq!(app.shapes.len(), 1);
    rect.game_object.is_visible = false;
    rect.draw(&mut app);
    assert_eq!(app.shapes.len(), 0);
    rect.draw(&mut app);
    assert_eq!(app.shapes.len(), 0);
    rect.game_object.is_visible = true;
    rect.draw(&mut app);
    assert_eq!(app.shapes.len(), 1);
}

#[test]
fn unbounded_rectangle_centers_on_screen() {
    let mut app = App::new();
    let mut rect = Rectangle::new();
    // Default 50x50 at the world origin in an 800x600 view.
    rect.draw(&mut app);
    match app.shapes[0] {
        Shape::Rect { top_left, bottom_right, rotation, center, zdepth, .. } => {
            assert_eq!(top_left, Vector2 { x: 375_000, y: 275_000 });
            assert_eq!(bottom_right, Vector2 { x: 425_000, y: 325_000 });
            assert_eq!(center, Vector2 { x: 400_000, y: 300_000 });
            assert_eq!(rotation, 0);
            assert_eq!(zdepth, 0);
        },
        _ => panic!("expected a rectangle shape"),
    }
}

#[test]
fn parallax_entity_ignores_camera_offset() {
    let mut app = App::new();
    app.game_view.game_object.transform.position = Vector2 { x: 100_000, y: 40_000 };
    let mut fixed_rect = Rectangle::new();
    fixed_rect.game_object.is_parallax = true;
    let mut scrolled_rect = Rectangle::new();
    fixed_rect.draw(&mut app);
    scrolled_rect.draw(&mut app);
    let fixed_left = match app.shapes[0] {
        Shape::Rect { top_left, .. } => top_left,
        _ => panic!("expected a rectangle shape"),
    };
    let scrolled_left = match app.shapes[1] {
        Shape::Rect { top_left, .. } => top_left,
        _ => panic!("expected a rectangle shape"),
    };
    assert_eq!(fixed_left, Vector2 { x: 375_000, y: 275_000 });
    // The camera offset shifts the other rectangle by half the offset.
    assert_eq!(scrolled_left, Vector2 { x: 325_000, y: 255_000 });
}

#[test]
fn circle_projects_center_and_radius() {
    let mut app = App::new();
    let mut circle = Circle::new();
    circle.game_object.transform.radius = 30_000;
    circle.game_object.transform.position = Vector2 { x: 10_000, y: -20_000 };
    circle.draw(&mut app);
    match app.shapes[0] {
        Shape::Circle { center, radius, sides, .. } => {
            assert_eq!(center, Vector2 { x: 410_000, y: 280_000 });
            assert_eq!(radius, 30_000);
            assert_eq!(sides, 32);
        },
        _ => panic!("expected a circle shape"),
    }
}

#[test]
fn bounded_circle_clamps_by_full_radius() {
    let mut app = App::new();
    let mut circle = Circle::new();
    circle.game_object.is_bounded = true;
    circle.game_object.transform.radius = 50_000;
    circle.game_object.transform.position = Vector2 { x: 0, y: 1_000_000 };
    circle.draw(&mut app);
    // Clamped to 300 - 50 = 250 units below the center.
    assert_eq!(circle.game_object.transform.position.y, 250_000);
}

#[test]
fn line_spans_its_half_length_vertically() {
    let mut app = App::new();
    let mut line = Line::new();
    line.game_object.transform.radius = 40_000;
    line.draw(&mut app);
    match app.shapes[0] {
        Shape::Line { from, to, stroke_size, .. } => {
            assert_eq!(from, Vector2 { x: 400_000, y: 260_000 });
            assert_eq!(to, Vector2 { x: 400_000, y: 340_000 });
            assert_eq!(stroke_size, 1000);
        },
        _ => panic!("expected a line shape"),
    }
}

#[test]
fn line_draw_replaces_its_slot() {
    let mut app = App::new();
    let mut line = Line::new();
    line.draw(&mut app);
    line.draw(&mut app);
    assert_eq!(app.shapes.len(), 1);
}

#[test]
fn triangle_projects_its_three_vertices() {
    let mut app = App::new();
    let mut triangle = Triangle::new();
    // Default 50x50 at the world origin in an 800x600 view.
    triangle.draw(&mut app);
    assert_eq!(app.shapes.len(), 1);
    match app.shapes[0] {
        Shape::Triangle { top, bottom_left, bottom_right, center, rotation, zdepth, .. } => {
            assert_eq!(top, Vector2 { x: 400_000, y: 275_000 });
            assert_eq!(bottom_left, Vector2 { x: 375_000, y: 325_000 });
            assert_eq!(bottom_right, Vector2 { x: 425_000, y: 325_000 });
            assert_eq!(center, Vector2 { x: 400_000, y: 300_000 });
            assert_eq!(rotation, 0);
            assert_eq!(zdepth, 0);
        },
        _ => panic!("expected a triangle shape"),
    }
}

#[test]
fn triangle_draw_replaces_its_slot() {
    let mut app = App::new();
    let mut triangle = Triangle::new();
    triangle.draw(&mut app);
    triangle.draw(&mut app);
    assert_eq!(app.shapes.len(), 1);
    triangle.game_object.is_visible = false;
    triangle.draw(&mut app);
    assert_eq!(app.shapes.len(), 0);
}

#[test]
fn bounded_triangle_clamps_to_screen() {
    let mut app = App::new();
    let mut triangle = Triangle::new();
    triangle.game_object.is_bounded = true;
    triangle.game_object.transform.position = Vector2 { x: 0, y: -1_000_000 };
    triangle.draw(&mut app);
    // Clamped to 300 - 25 = 275 units above the center.
    assert_eq!(triangle.game_object.transform.position.y, -275_000);
    match app.shapes[0] {
        Shape::Triangle { top, bottom_left, .. } => {
            assert_eq!(top.y, 0);
            assert_eq!(bottom_left.y, 50_000);
        },
        _ => panic!("expected a triangle shape"),
    }
}

#[test]
fn layers_map_to_increasing_depth() {
    assert_eq!(RenderLayer::Layer1.depth(), 0);
    assert_eq!(RenderLayer::Layer2.depth(), 100);
    assert_eq!(RenderLayer::Layer10.depth(), 900);
}
