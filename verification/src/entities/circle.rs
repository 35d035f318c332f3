//! A drawable circle.

use crate::app::App;
use crate::entities::game_object::{layer_depth, GameObject, RenderLayer};
use crate::fixed::{div_i64, div_trunc, COORD_LIMIT};
use crate::projection::{bounded_axis, viewport_component, HALF_SCALE};
use crate::rendering::shape::Shape;
use crate::types::color::Color;
use crate::types::vector2::Vector2;
use vstd::prelude::*;

verus! {

/// A filled, stroked circle that redraws itself into the application's
/// draw list each frame, replacing its previous slot. Its extent is the
/// transform's `radius`.
#[derive(Clone, Copy)]
pub struct Circle {
    pub game_object: GameObject,
    pub fill_color: Color,
    pub stroke_size: i64,
    pub stroke_color: Color,
    pub layer: RenderLayer,
    pub index: usize,
    pub is_init: bool,
}

/// The world x coordinate a circle is drawn at: bounded circles are first
/// clamped, a full radius away from the screen edge.
pub open spec fn circle_world_x(c: Circle, view_position: Vector2, width: u32) -> int {
    let vx = viewport_component(c.game_object.is_parallax, view_position.x as int);
    let x = c.game_object.transform.position.x as int;
    if c.game_object.is_bounded {
        bounded_axis(
            x,
            (width as int) * (HALF_SCALE as int),
            c.game_object.transform.radius as int,
            div_trunc(vx, 2),
        )
    } else {
        x
    }
}

/// The world y coordinate a circle is drawn at.
pub open spec fn circle_world_y(c: Circle, view_position: Vector2, height: u32) -> int {
    let vy = viewport_component(c.game_object.is_parallax, view_position.y as int);
    let y = c.game_object.transform.position.y as int;
    if c.game_object.is_bounded {
        bounded_axis(
            y,
            (height as int) * (HALF_SCALE as int),
            c.game_object.transform.radius as int,
            div_trunc(vy, 2),
        )
    } else {
        y
    }
}

/// The screen-space shape a circle submits: its (possibly clamped) world
/// center translated to top-left-origin screen space, shifted by half the
/// camera offset, approximated by 32 segments.
pub open spec fn circle_shape_spec(
    c: Circle,
    view_position: Vector2,
    width: u32,
    height: u32,
) -> Shape {
    let vx = viewport_component(c.game_object.is_parallax, view_position.x as int);
    let vy = viewport_component(c.game_object.is_parallax, view_position.y as int);
    let half_w = (width as int) * (HALF_SCALE as int);
    let half_h = (height as int) * (HALF_SCALE as int);
    let hvx = div_trunc(vx, 2);
    let hvy = div_trunc(vy, 2);
    let px = circle_world_x(c, view_position, width);
    let py = circle_world_y(c, view_position, height);
    Shape::Circle {
        center: Vector2 { x: (px + half_w - hvx) as i64, y: (py + half_h - hvy) as i64 },
        radius: c.game_object.transform.radius,
        sides: 32,
        stroke_size: c.stroke_size,
        stroke_color: c.stroke_color,
        fill_color: c.fill_color,
        zdepth: layer_depth(c.layer) as i64,
    }
}

impl Circle {
    /// A default circle: white, unstroked, on the back layer, not yet
    /// holding a draw-list slot.
    pub fn new() -> (c: Self)
        ensures
            c == (Circle {
                game_object: GameObject::default_spec(),
                fill_color: Color { r: 1000, g: 1000, b: 1000, a: 1000 },
                stroke_size: 0 as i64,
                stroke_color: Color { r: 1000, g: 1000, b: 1000, a: 1000 },
                layer: RenderLayer::Layer1,
                index: 0 as usize,
                is_init: false,
            }),
    {
        Circle {
            game_object: GameObject::new(),
            fill_color: Color::white(),
            stroke_size: 0,
            stroke_color: Color::white(),
            layer: RenderLayer::Layer1,
            index: 0,
            is_init: false,
        }
    }

    /// Project this circle to screen space and submit it to the draw
    /// list, replacing the entry of the previous frame so the entity owns
    /// at most one slot. A bounded circle's world position is clamped
    /// onto the screen first; an invisible circle submits nothing and
    /// gives up its slot.
    #[verifier::rlimit(100)]
    pub fn draw(&mut self, app: &mut App)
        requires
            old(self).is_init ==> old(self).index < old(app).shapes@.len(),
            old(self).game_object.transform.in_world_range(),
            -2 * COORD_LIMIT <= old(app).game_view.game_object.transform.position.x <= 2
                * COORD_LIMIT,
            -2 * COORD_LIMIT <= old(app).game_view.game_object.transform.position.y <= 2
                * COORD_LIMIT,
        ensures
            final(app).same_screen_config(*old(app)),
            final(app).input@ == old(app).input@,
            final(app).input.wf() == old(app).input.wf(),
            final(app).time@ == old(app).time@,
            final(app).game_view == old(app).game_view,
            final(app).is_focused == old(app).is_focused,
            final(app).quit_requested == old(app).quit_requested,
            final(self).fill_color == old(self).fill_color,
            final(self).stroke_size == old(self).stroke_size,
            final(self).stroke_color == old(self).stroke_color,
            final(self).layer == old(self).layer,
            final(self).game_object.transform.rotation == old(self).game_object.transform.rotation,
            final(self).game_object.transform.size == old(self).game_object.transform.size,
            final(self).game_object.transform.radius == old(self).game_object.transform.radius,
            final(self).game_object.is_visible == old(self).game_object.is_visible,
            final(self).game_object.is_parallax == old(self).game_object.is_parallax,
            final(self).game_object.is_bounded == old(self).game_object.is_bounded,
            ({
                let withdrawn = if old(self).is_init {
                    old(app).shapes@.remove(old(self).index as int)
                } else {
                    old(app).shapes@
                };
                let view_position = old(app).game_view.game_object.transform.position;
                if old(self).game_object.is_visible {
                    &&& final(app).shapes@ == withdrawn.push(
                        circle_shape_spec(
                            *old(self),
                            view_position,
                            old(app).width,
                            old(app).height,
                        ),
                    )
                    &&& final(self).is_init
                    &&& final(self).index == final(app).shapes@.len() - 1
                    &&& final(self).game_object.transform.position.x == circle_world_x(
                        *old(self),
                        view_position,
                        old(app).width,
                    )
                    &&& final(self).game_object.transform.position.y == circle_world_y(
                        *old(self),
                        view_position,
                        old(app).height,
                    )
                } else {
                    &&& final(app).shapes@ == withdrawn
                    &&& !final(self).is_init
                    &&& final(self).game_object.transform.position == old(
                        self,
                    ).game_object.transform.position
                }
            }),
    {
        if !self.game_object.is_visible {
            if self.is_init {
                app.shapes.remove(self.index);
                self.is_init = false;
            }
            return;
        }
        if self.is_init {
            app.shapes.remove(self.index);
        }

        let radius = self.game_object.transform.radius;

        let viewport_x: i64 = if self.game_object.is_parallax {
            0
        } else {
            app.game_view.game_object.transform.position.x
        };
        let viewport_y: i64 = if self.game_object.is_parallax {
            0
        } else {
            app.game_view.game_object.transform.position.y
        };

        let half_w: i64 = (app.width as i64) * HALF_SCALE;
        let half_h: i64 = (app.height as i64) * HALF_SCALE;
        let hvx: i64 = div_i64(viewport_x, 2);
        let hvy: i64 = div_i64(viewport_y, 2);

        // Bound the object inside the game view.
        if self.game_object.is_bounded {
            let x = self.game_object.transform.position.x;
            let max_x: i64 = half_w - radius + hvx;
            let min_x: i64 = -half_w + radius + hvx;
            if x > max_x {
                self.game_object.transform.position.x = max_x;
            } else if x < min_x {
                self.game_object.transform.position.x = min_x;
            }

            let y = self.game_object.transform.position.y;
            let max_y: i64 = half_h - radius + hvy;
            let min_y: i64 = -half_h + radius + hvy;
            if y > max_y {
                self.game_object.transform.position.y = max_y;
            } else if y < min_y {
                self.game_object.transform.position.y = min_y;
            }
        }
        let x = self.game_object.transform.position.x;
        let y = self.game_object.transform.position.y;

        app.shapes.push(
            Shape::Circle {
                center: Vector2 { x: x + half_w - hvx, y: y + half_h - hvy },
                radius,
                sides: 32,
                stroke_size: self.stroke_size,
                stroke_color: self.stroke_color,
                fill_color: self.fill_color,
                zdepth: self.layer.depth(),
            },
        );
        self.index = app.shapes.len() - 1;
        self.is_init = true;
    }
}

} // verus!
