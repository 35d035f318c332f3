//! A drawable vertical line segment.

use crate::app::App;
use crate::entities::game_object::{layer_depth, GameObject, RenderLayer};
use crate::fixed::{div_i64, div_trunc, COORD_LIMIT};
use crate::projection::{bounded_axis, viewport_component, HALF_SCALE};
use crate::rendering::shape::Shape;
use crate::types::color::Color;
use crate::types::vector2::Vector2;
use vstd::prelude::*;

verus! {

/// A stroked segment reaching the transform's `radius` above and below
/// its position (rotation tilts it), redrawn into the application's draw
/// list each frame, replacing its previous slot.
#[derive(Clone, Copy)]
pub struct Line {
    pub game_object: GameObject,
    pub fill_color: Color,
    pub stroke_size: i64,
    pub stroke_color: Color,
    pub layer: RenderLayer,
    pub index: usize,
    pub is_init: bool,
}

/// The world x coordinate a line is drawn at: a bounded line's center is
/// clamped onto the screen (the segment has no horizontal extent).
pub open spec fn line_world_x(l: Line, view_position: Vector2, width: u32) -> int {
    let vx = viewport_component(l.game_object.is_parallax, view_position.x as int);
    let x = l.game_object.transform.position.x as int;
    if l.game_object.is_bounded {
        bounded_axis(x, (width as int) * (HALF_SCALE as int), 0, div_trunc(vx, 2))
    } else {
        x
    }
}

/// The world y coordinate a line is drawn at: bounded lines are clamped a
/// full half-length away from the screen edge.
pub open spec fn line_world_y(l: Line, view_position: Vector2, height: u32) -> int {
    let vy = viewport_component(l.game_object.is_parallax, view_position.y as int);
    let y = l.game_object.transform.position.y as int;
    if l.game_object.is_bounded {
        bounded_axis(
            y,
            (height as int) * (HALF_SCALE as int),
            l.game_object.transform.radius as int,
            div_trunc(vy, 2),
        )
    } else {
        y
    }
}

/// The screen-space shape a line submits: a vertical segment of
/// half-length `radius` around the (possibly clamped) world position,
/// translated to top-left-origin screen space.
pub open spec fn line_shape_spec(l: Line, view_position: Vector2, width: u32, height: u32) -> Shape {
    let vx = viewport_component(l.game_object.is_parallax, view_position.x as int);
    let vy = viewport_component(l.game_object.is_parallax, view_position.y as int);
    let half_w = (width as int) * (HALF_SCALE as int);
    let half_h = (height as int) * (HALF_SCALE as int);
    let hvx = div_trunc(vx, 2);
    let hvy = div_trunc(vy, 2);
    let radius = l.game_object.transform.radius as int;
    let px = line_world_x(l, view_position, width);
    let py = line_world_y(l, view_position, height);
    let v0 = Vector2 { x: (px + half_w - hvx) as i64, y: (py + half_h - radius - hvy) as i64 };
    let v1 = Vector2 { x: (px + half_w - hvx) as i64, y: (py + half_h + radius - hvy) as i64 };
    Shape::Line {
        from: v0,
        to: v1,
        stroke_size: l.stroke_size,
        stroke_color: l.stroke_color,
        fill_color: l.fill_color,
        rotation: l.game_object.transform.rotation,
        center: Vector2 {
            x: div_trunc(v0.x + v1.x, 2) as i64,
            y: div_trunc(v0.y + v1.y, 2) as i64,
        },
        zdepth: layer_depth(l.layer) as i64,
    }
}

impl Line {
    /// A default line: white, one unit of stroke, on the back layer, not
    /// yet holding a draw-list slot.
    pub fn new() -> (l: Self)
        ensures
            l == (Line {
                game_object: GameObject::default_spec(),
                fill_color: Color { r: 1000, g: 1000, b: 1000, a: 1000 },
                stroke_size: 1000 as i64,
                stroke_color: Color { r: 1000, g: 1000, b: 1000, a: 1000 },
                layer: RenderLayer::Layer1,
                index: 0 as usize,
                is_init: false,
            }),
    {
        Line {
            game_object: GameObject::new(),
            fill_color: Color::white(),
            stroke_size: 1000,
            stroke_color: Color::white(),
            layer: RenderLayer::Layer1,
            index: 0,
            is_init: false,
        }
    }

    /// Project this line to screen space and submit it to the draw list,
    /// replacing the entry of the previous frame so the entity owns at
    /// most one slot. A bounded line is clamped onto the screen first; an
    /// invisible line submits nothing and gives up its slot.
    #[verifier::rlimit(100)]
    pub fn draw(&mut self, app: &mut App)
        requires
            old(self).is_init ==> old(self).index < old(app).shapes@.len(),
            old(self).game_object.transform.in_world_range(),
            -2 * COORD_LIMIT <= old(app).game_view.game_object.transform.position.x <= 2
                * COORD_LIMIT,
            -2 * COORD_LIMIT <= old(app).game_view.game_object.transform.position.y <= 2
                * COORD_LIMIT,
        ensures
            final(app).same_screen_config(*old(app)),
            final(app).input@ == old(app).input@,
            final(app).input.wf() == old(app).input.wf(),
            final(app).time@ == old(app).time@,
            final(app).game_view == old(app).game_view,
            final(app).is_focused == old(app).is_focused,
            final(app).quit_requested == old(app).quit_requested,
            final(self).fill_color == old(self).fill_color,
            final(self).stroke_size == old(self).stroke_size,
            final(self).stroke_color == old(self).stroke_color,
            final(self).layer == old(self).layer,
            final(self).game_object.transform.rotation == old(self).game_object.transform.rotation,
            final(self).game_object.transform.size == old(self).game_object.transform.size,
            final(self).game_object.transform.radius == old(self).game_object.transform.radius,
            final(self).game_object.is_visible == old(self).game_object.is_visible,
            final(self).game_object.is_parallax == old(self).game_object.is_parallax,
            final(self).game_object.is_bounded == old(self).game_object.is_bounded,
            ({
                let withdrawn = if old(self).is_init {
                    old(app).shapes@.remove(old(self).index as int)
                } else {
                    old(app).shapes@
                };
                let view_position = old(app).game_view.game_object.transform.position;
                if old(self).game_object.is_visible {
                    &&& final(app).shapes@ == withdrawn.push(
                        line_shape_spec(*old(self), view_position, old(app).width, old(app).height),
                    )
                    &&& final(self).is_init
                    &&& final(self).index == final(app).shapes@.len() - 1
                    &&& final(self).game_object.transform.position.x == line_world_x(
                        *old(self),
                        view_position,
                        old(app).width,
                    )
                    &&& final(self).game_object.transform.position.y == line_world_y(
                        *old(self),
                        view_position,
                        old(app).height,
                    )
                } else {
                    &&& final(app).shapes@ == withdrawn
                    &&& !final(self).is_init
                    &&& final(self).game_object.transform.position == old(
                        self,
                    ).game_object.transform.position
                }
            }),
    {
        if !self.game_object.is_visible {
            if self.is_init {
                app.shapes.remove(self.index);
                self.is_init = false;
            }
            return;
        }
        if self.is_init {
            app.shapes.remove(self.index);
        }

        let radius = self.game_object.transform.radius;

        let viewport_x: i64 = if self.game_object.is_parallax {
            0
        } else {
            app.game_view.game_object.transform.position.x
        };
        let viewport_y: i64 = if self.game_object.is_parallax {
            0
        } else {
            app.game_view.game_object.transform.position.y
        };

        let half_w: i64 = (app.width as i64) * HALF_SCALE;
        let half_h: i64 = (app.height as i64) * HALF_SCALE;
        let hvx: i64 = div_i64(viewport_x, 2);
        let hvy: i64 = div_i64(viewport_y, 2);

        // Bound the object inside the game view.
        if self.game_object.is_bounded {
            let x = self.game_object.transform.position.x;
            let max_x: i64 = half_w + hvx;
            let min_x: i64 = -half_w + hvx;
            if x > max_x {
                self.game_object.transform.position.x = max_x;
            } else if x < min_x {
                self.game_object.transform.position.x = min_x;
            }

            let y = self.game_object.transform.position.y;
            let max_y: i64 = half_h - radius + hvy;
            let min_y: i64 = -half_h + radius + hvy;
            if y > max_y {
                self.game_object.transform.position.y = max_y;
            } else if y < min_y {
                self.game_object.transform.position.y = min_y;
            }
        }
        let x = self.game_object.transform.position.x;
        let y = self.game_object.transform.position.y;

        let vertex_0 = Vector2 { x: x + half_w - hvx, y: y + half_h - radius - hvy };
        let vertex_1 = Vector2 { x: x + half_w - hvx, y: y + half_h + radius - hvy };
        let center = Vector2 {
            x: div_i64(vertex_0.x + vertex_1.x, 2),
            y: div_i64(vertex_0.y + vertex_1.y, 2),
        };

        app.shapes.push(
            Shape::Line {
                from: vertex_0,
                to: vertex_1,
                stroke_size: self.stroke_size,
                stroke_color: self.stroke_color,
                fill_color: self.fill_color,
                rotation: self.game_object.transform.rotation,
                center,
                zdepth: self.layer.depth(),
            },
        );
        self.index = app.shapes.len() - 1;
        self.is_init = true;
    }
}

} // verus!
