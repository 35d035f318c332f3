//! A drawable triangle.

use crate::app::App;
use crate::entities::game_object::{layer_depth, GameObject, RenderLayer};
use crate::fixed::{div_i64, div_trunc, COORD_LIMIT};
use crate::projection::{bounded_axis, viewport_component, HALF_SCALE};
use crate::rendering::shape::Shape;
use crate::types::color::Color;
use crate::types::vector2::Vector2;
use vstd::prelude::*;

verus! {

/// A filled, stroked, rotatable triangle that redraws itself into the
/// application's draw list each frame, replacing its previous slot. It
/// spans the transform's `size`: its apex sits at the top middle of that
/// box and its base along the bottom edge.
#[derive(Clone, Copy)]
pub struct Triangle {
    pub game_object: GameObject,
    pub fill_color: Color,
    pub stroke_size: i64,
    pub stroke_color: Color,
    pub layer: RenderLayer,
    pub index: usize,
    pub is_init: bool,
}

/// The world x coordinate a triangle is drawn at: bounded triangles are
/// first clamped so the whole shape stays on screen.
pub open spec fn triangle_world_x(t: Triangle, view_position: Vector2, width: u32) -> int {
    let vx = viewport_component(t.game_object.is_parallax, view_position.x as int);
    let x = t.game_object.transform.position.x as int;
    if t.game_object.is_bounded {
        bounded_axis(
            x,
            (width as int) * (HALF_SCALE as int),
            div_trunc(t.game_object.transform.size.x as int, 2),
            div_trunc(vx, 2),
        )
    } else {
        x
    }
}

/// The world y coordinate a triangle is drawn at.
pub open spec fn triangle_world_y(t: Triangle, view_position: Vector2, height: u32) -> int {
    let vy = viewport_component(t.game_object.is_parallax, view_position.y as int);
    let y = t.game_object.transform.position.y as int;
    if t.game_object.is_bounded {
        bounded_axis(
            y,
            (height as int) * (HALF_SCALE as int),
            div_trunc(t.game_object.transform.size.y as int, 2),
            div_trunc(vy, 2),
        )
    } else {
        y
    }
}

/// The screen-space shape a triangle submits: its (possibly clamped)
/// world position translated to top-left-origin screen space, shifted by
/// half the camera offset, the apex half a height above the center and
/// the base corners half a size below and beside it.
pub open spec fn triangle_shape_spec(
    t: Triangle,
    view_position: Vector2,
    width: u32,
    height: u32,
) -> Shape {
    let vx = viewport_component(t.game_object.is_parallax, view_position.x as int);
    let vy = viewport_component(t.game_object.is_parallax, view_position.y as int);
    let half_w = (width as int) * (HALF_SCALE as int);
    let half_h = (height as int) * (HALF_SCALE as int);
    let half_sx = div_trunc(t.game_object.transform.size.x as int, 2);
    let half_sy = div_trunc(t.game_object.transform.size.y as int, 2);
    let hvx = div_trunc(vx, 2);
    let hvy = div_trunc(vy, 2);
    let px = triangle_world_x(t, view_position, width);
    let py = triangle_world_y(t, view_position, height);
    Shape::Triangle {
        top: Vector2 { x: (px + half_w - hvx) as i64, y: (py + half_h - half_sy - hvy) as i64 },
        bottom_left: Vector2 {
            x: (px + half_w - half_sx - hvx) as i64,
            y: (py + half_h + half_sy - hvy) as i64,
        },
        bottom_right: Vector2 {
            x: (px + half_w + half_sx - hvx) as i64,
            y: (py + half_h + half_sy - hvy) as i64,
        },
        stroke_size: t.stroke_size,
        stroke_color: t.stroke_color,
        fill_color: t.fill_color,
        rotation: t.game_object.transform.rotation,
        center: Vector2 { x: (px + half_w - hvx) as i64, y: (py + half_h - hvy) as i64 },
        zdepth: layer_depth(t.layer) as i64,
    }
}

impl Triangle {
    /// A default triangle: white, unstroked, on the back layer, not yet
    /// holding a draw-list slot.
    pub fn new() -> (t: Self)
        ensures
            t.game_object == GameObject::default_spec(),
            t.fill_color == (Color { r: 1000 as i64, g: 1000 as i64, b: 1000 as i64, a: 1000 as i64 }),
            t.stroke_size == 0,
            t.stroke_color == (Color { r: 1000 as i64, g: 1000 as i64, b: 1000 as i64, a: 1000 as i64 }),
            t.layer == RenderLayer::Layer1,
            t.index == 0,
            !t.is_init,
    {
        Triangle {
            game_object: GameObject::new(),
            fill_color: Color::white(),
            stroke_size: 0,
            stroke_color: Color::white(),
            layer: RenderLayer::Layer1,
            index: 0,
            is_init: false,
        }
    }

    /// Project this triangle to screen space and submit it to the draw
    /// list, replacing the entry of the previous frame so the entity owns
    /// at most one slot. A bounded triangle's world position is clamped
    /// onto the screen first; an invisible triangle submits nothing and
    /// gives up its slot.
    #[verifier::rlimit(100)]
    pub fn draw(&mut self, app: &mut App)
        requires
            old(self).is_init ==> old(self).index < old(app).shapes@.len(),
            old(self).game_object.transform.in_world_range(),
            -2 * COORD_LIMIT <= old(app).game_view.game_object.transform.position.x <= 2
                * COORD_LIMIT,
            -2 * COORD_LIMIT <= old(app).game_view.game_object.transform.position.y <= 2
                * COORD_LIMIT,
        ensures
            final(app).same_screen_config(*old(app)),
            final(app).input@ == old(app).input@,
            final(app).input.wf() == old(app).input.wf(),
            final(app).time@ == old(app).time@,
            final(app).game_view == old(app).game_view,
            final(app).is_focused == old(app).is_focused,
            final(app).quit_requested == old(app).quit_requested,
            final(self).fill_color == old(self).fill_color,
            final(self).stroke_size == old(self).stroke_size,
            final(self).stroke_color == old(self).stroke_color,
            final(self).layer == old(self).layer,
            final(self).game_object.transform.rotation == old(self).game_object.transform.rotation,
            final(self).game_object.transform.size == old(self).game_object.transform.size,
            final(self).game_object.transform.radius == old(self).game_object.transform.radius,
            final(self).game_object.is_visible == old(self).game_object.is_visible,
            final(self).game_object.is_parallax == old(self).game_object.is_parallax,
            final(self).game_object.is_bounded == old(self).game_object.is_bounded,
            ({
                let withdrawn = if old(self).is_init {
                    old(app).shapes@.remove(old(self).index as int)
                } else {
                    old(app).shapes@
                };
                let view_position = old(app).game_view.game_object.transform.position;
                if old(self).game_object.is_visible {
                    &&& final(app).shapes@ == withdrawn.push(
                        triangle_shape_spec(
                            *old(self),
                            view_position,
                            old(app).width,
                            old(app).height,
                        ),
                    )
                    &&& final(self).is_init
                    &&& final(self).index == final(app).shapes@.len() - 1
                    &&& final(self).game_object.transform.position.x == triangle_world_x(
                        *old(self),
                        view_position,
                        old(app).width,
                    )
                    &&& final(self).game_object.transform.position.y == triangle_world_y(
                        *old(self),
                        view_position,
                        old(app).height,
                    )
                } else {
                    &&& final(app).shapes@ == withdrawn
                    &&& !final(self).is_init
                    &&& final(self).game_object.transform.position == old(
                        self,
                    ).game_object.transform.position
                }
            }),
    {
        if !self.game_object.is_visible {
            if self.is_init {
                app.shapes.remove(self.index);
                self.is_init = false;
            }
            return;
        }
        if self.is_init {
            app.shapes.remove(self.index);
        }

        let width = self.game_object.transform.size.x;
        let height = self.game_object.transform.size.y;

        let viewport_x: i64 = if self.game_object.is_parallax {
            0
        } else {
            app.game_view.game_object.transform.position.x
        };
        let viewport_y: i64 = if self.game_object.is_parallax {
            0
        } else {
            app.game_view.game_object.transform.position.y
        };

        let half_w: i64 = (app.width as i64) * HALF_SCALE;
        let half_h: i64 = (app.height as i64) * HALF_SCALE;
        let half_sx: i64 = div_i64(width, 2);
        let half_sy: i64 = div_i64(height, 2);
        let hvx: i64 = div_i64(viewport_x, 2);
        let hvy: i64 = div_i64(viewport_y, 2);

        // Bound the object inside the game view.
        if self.game_object.is_bounded {
            let x = self.game_object.transform.position.x;
            let max_x: i64 = half_w - half_sx + hvx;
            let min_x: i64 = -half_w + half_sx + hvx;
            if x > max_x {
                self.game_object.transform.position.x = max_x;
            } else if x < min_x {
                self.game_object.transform.position.x = min_x;
            }

            let y = self.game_object.transform.position.y;
            let max_y: i64 = half_h - half_sy + hvy;
            let min_y: i64 = -half_h + half_sy + hvy;
            if y > max_y {
                self.game_object.transform.position.y = max_y;
            } else if y < min_y {
                self.game_object.transform.position.y = min_y;
            }
        }
        let x = self.game_object.transform.position.x;
        let y = self.game_object.transform.position.y;
        proof {
            let view_position = old(app).game_view.game_object.transform.position;
            assert(x == triangle_world_x(*old(self), view_position, old(app).width));
            assert(y == triangle_world_y(*old(self), view_position, old(app).height));
        }

        // Apex at the top middle, base corners below and beside the center.
        let top = Vector2 { x: x + half_w - hvx, y: y + half_h - half_sy - hvy };
        let bottom_left = Vector2 { x: x + half_w - half_sx - hvx, y: y + half_h + half_sy - hvy };
        let bottom_right = Vector2 { x: x + half_w + half_sx - hvx, y: y + half_h + half_sy - hvy };
        let center = Vector2 { x: x + half_w - hvx, y: y + half_h - hvy };

        let shape = Shape::Triangle {
            top,
            bottom_left,
            bottom_right,
            stroke_size: self.stroke_size,
            stroke_color: self.stroke_color,
            fill_color: self.fill_color,
            rotation: self.game_object.transform.rotation,
            center,
            zdepth: self.layer.depth(),
        };
        proof {
            let view_position = old(app).game_view.game_object.transform.position;
            assert(shape == triangle_shape_spec(
                *old(self),
                view_position,
                old(app).width,
                old(app).height,
            ));
        }
        app.shapes.push(shape);
        self.index = app.shapes.len() - 1;
        self.is_init = true;
    }
}

} // verus!
