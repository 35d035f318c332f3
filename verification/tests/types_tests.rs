//! Tests for the fixed-point value types.

use sidekick::types::color::Color;
use sidekick::types::color32::Color32;
use sidekick::types::font::Font;
use sidekick::types::vector2::Vector2;

#[test]
fn color_normalized_clamps_each_channel() {
    let mut color = Color { r: 1500, g: -200, b: 500, a: 1000 };
    let clamped = color.normalized();
    assert_eq!(clamped, Color { r: 1000, g: 0, b: 500, a: 1000 });
    // The original is left unchanged.
    assert_eq!(color, Color { r: 1500, g: -200, b: 500, a: 1000 });
}

#[test]
fn color_constructors() {
    assert_eq!(Color::new(), Color { r: 0, g: 0, b: 0, a: 1000 });
    assert_eq!(Color::red(), Color { r: 1000, g: 0, b: 0, a: 1000 });
    assert_eq!(Color::teal(), Color { r: 0, g: 1000, b: 1000, a: 1000 });
    assert_eq!(Color::white(), Color { r: 1000, g: 1000, b: 1000, a: 1000 });
    assert_eq!(Color::transparent(), Color { r: 0, g: 0, b: 0, a: 0 });
}

#[test]
fn color_from_hex_parses_channels() {
    assert_eq!(Color::from_hex("ff0000"), Color { r: 1000, g: 0, b: 0, a: 1000 });
    assert_eq!(Color::from_hex("00FF00"), Color { r: 0, g: 1000, b: 0, a: 1000 });
    // 0x80 = 128; 128 * 1000 / 255 = 501 rounded down.
    assert_eq!(Color::from_hex("808080"), Color { r: 501, g: 501, b: 501, a: 1000 });
}

#[test]
fn color_from_hex_wrong_length_is_black() {
    assert_eq!(Color::from_hex(""), Color { r: 0, g: 0, b: 0, a: 1000 });
    assert_eq!(Color::from_hex("fff"), Color { r: 0, g: 0, b: 0, a: 1000 });
    assert_eq!(Color::from_hex("ff00000"), Color { r: 0, g: 0, b: 0, a: 1000 });
}

#[test]
fn color_from_hex_stray_character_is_black() {
    assert_eq!(Color::from_hex("zzzzzz"), Color { r: 0, g: 0, b: 0, a: 1000 });
    assert_eq!(Color::from_hex("ff00g0"), Color { r: 0, g: 0, b: 0, a: 1000 });
}

#[test]
fn color_arithmetic() {
    let a = Color { r: 500, g: 200, b: 100, a: 1000 };
    let b = Color { r: 250, g: 100, b: 400, a: 1000 };
    assert_eq!(a.add(b), Color { r: 750, g: 300, b: 500, a: 2000 });
    assert_eq!(a.sub(b), Color { r: 250, g: 100, b: -300, a: 0 });
    // 0.5 * 0.25 = 0.125
    assert_eq!(a.mul(b).r, 125);
    // 0.5 / 0.25 = 2.0
    assert_eq!(a.div(b).r, 2000);
    assert_eq!(a.mul_scalar(2000), Color { r: 1000, g: 400, b: 200, a: 2000 });
    assert_eq!(a.div_scalar(2000).r, 250);
    assert_eq!(a.add_scalar(10).g, 210);
    assert_eq!(a.sub_scalar(10).b, 90);
}

#[test]
fn color32_normalized_clamps_down_to_255() {
    let mut color = Color32 { r: 300, g: 10, b: 256, a: 255 };
    let clamped = color.normalized();
    assert_eq!(clamped, Color32 { r: 255, g: 10, b: 255, a: 255 });
    assert_eq!(color.r, 300);
}

#[test]
fn color32_constructors_and_arithmetic() {
    assert_eq!(Color32::new(), Color32 { r: 0, g: 0, b: 0, a: 255 });
    assert_eq!(Color32::yellow(), Color32 { r: 255, g: 255, b: 0, a: 255 });
    assert_eq!(Color32::pink(), Color32 { r: 255, g: 0, b: 255, a: 255 });
    assert_eq!(Color32::black(), Color32 { r: 0, g: 0, b: 0, a: 255 });
    assert_eq!(Color32::white(), Color32 { r: 255, g: 255, b: 255, a: 255 });
    assert_eq!(Color32::red().add(Color32::green()).g, 255);
    assert_eq!(Color32::white().sub(Color32::red()).r, 0);
    let two = Color32 { r: 2, g: 2, b: 2, a: 1 };
    assert_eq!(Color32::blue().div(two).b, 127);
    assert_eq!(two.mul(two).r, 4);
}

#[test]
fn vector_length_is_euclidean() {
    let mut v = Vector2 { x: 3000, y: 4000 };
    assert_eq!(v.length(), 5000);
    let mut zero = Vector2 { x: 0, y: 0 };
    assert_eq!(zero.length(), 0);
    // sqrt(2) in fixed point, rounded down: |(1, 1)| = 1.414...
    let mut diag = Vector2 { x: 1000, y: 1000 };
    assert_eq!(diag.length(), 1414);
}

#[test]
fn vector_normalized_has_unit_components() {
    let mut v = Vector2 { x: 3000, y: 4000 };
    assert_eq!(v.normalized(), Vector2 { x: 600, y: 800 });
    // The zero vector stays zero instead of dividing by zero.
    let mut zero = Vector2 { x: 0, y: 0 };
    assert_eq!(zero.normalized(), Vector2 { x: 0, y: 0 });
}

#[test]
fn vector_distance_and_dot() {
    let mut a = Vector2 { x: 1000, y: 2000 };
    let b = Vector2 { x: 4000, y: 6000 };
    assert_eq!(a.distance(b), 5000);
    // (1, 2) . (4, 6) = 16
    assert_eq!(a.dot(b), 16_000);
}

#[test]
fn vector_arithmetic() {
    let a = Vector2 { x: 2000, y: -1000 };
    let b = Vector2 { x: 500, y: 250 };
    assert_eq!(a.add(b), Vector2 { x: 2500, y: -750 });
    assert_eq!(a.sub(b), Vector2 { x: 1500, y: -1250 });
    assert_eq!(a.mul(b), Vector2 { x: 1000, y: -250 });
    assert_eq!(a.div(b), Vector2 { x: 4000, y: -4000 });
    assert_eq!(a.neg(), Vector2 { x: -2000, y: 1000 });
    assert_eq!(a.add_scalar(100), Vector2 { x: 2100, y: -900 });
    assert_eq!(a.sub_scalar(100), Vector2 { x: 1900, y: -1100 });
    assert_eq!(a.mul_scalar(500), Vector2 { x: 1000, y: -500 });
    assert_eq!(a.div_scalar(500), Vector2 { x: 4000, y: -2000 });
}

#[test]
fn vector_translate_accumulates() {
    let mut v = Vector2::zero();
    v.translate(Vector2 { x: 10, y: 20 });
    v.translate(Vector2 { x: -5, y: 5 });
    assert_eq!(v, Vector2 { x: 5, y: 25 });
}

#[test]
fn vector_unit_constructors() {
    assert_eq!(Vector2::new(), Vector2 { x: 0, y: 0 });
    assert_eq!(Vector2::zero(), Vector2 { x: 0, y: 0 });
    assert_eq!(Vector2::identity(), Vector2 { x: 1000, y: 1000 });
    assert_eq!(Vector2::unit_x(), Vector2 { x: 1000, y: 0 });
    assert_eq!(Vector2::unit_y(), Vector2 { x: 0, y: 1000 });
}

#[test]
fn font_defaults() {
    let font = Font::new();
    assert_eq!(font.path, "./resources/default_font.ttf");
    assert_eq!(font.width, 0);
    assert_eq!(font.height, 48);
}
