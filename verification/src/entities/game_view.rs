//! The game view (camera), with its screen-shake state machine.

use crate::entities::game_object::GameObject;
use crate::fixed::{fp_mul, fp_mul_spec, COORD_LIMIT, SCALE, TIME_LIMIT};
use crate::types::color::Color;
use crate::types::vector2::Vector2;
use rand::Rng;
use vstd::prelude::*;

verus! {

/// The current game viewport: a game object whose position offsets every
/// non-parallax entity, a clear color, and a time-decaying random shake.
/// The shake fields are driven by [`GameView::start_shaking`],
/// [`GameView::shake`] and [`GameView::stop_shaking`]; user code reads
/// them at most.
pub struct GameView {
    pub game_object: GameObject,
    pub color: Color,
    pub is_shaking: bool,
    pub shake_intensity: i64,
    pub shake_duration: i64,
    pub shake_decrease_factor: i64,
    pub original_position: Vector2,
}

/// Relies on `rand::Rng::gen_range` over a half-open `i64` range: the
/// sample lies in `[low, high)`; an empty range would panic, so it is
/// excluded. Nothing beyond the bounds is assumed of the outcome.
#[verifier::external_body]
fn random_in_range(low: i64, high: i64) -> (r: i64)
    requires
        low < high,
    ensures
        low <= r < high,
{
    rand::thread_rng().gen_range(low..high)
}

/// Each shake frame charges a nonnegative amount against the remaining
/// duration, so the duration never increases: once the accumulated
/// charges reach the duration the shake has stopped for good.
pub proof fn lemma_shake_duration_never_increases(
    duration: int,
    frame_time: int,
    decrease_factor: int,
)
    requires
        0 <= frame_time,
        0 <= decrease_factor,
    ensures
        duration - fp_mul_spec(frame_time, decrease_factor) <= duration,
{
    assert(0 <= frame_time * decrease_factor) by (nonlinear_arith)
        requires
            0 <= frame_time,
            0 <= decrease_factor,
    ;
    crate::fixed::lemma_div_trunc_magnitude(frame_time * decrease_factor, SCALE as int);
}

impl GameView {
    /// While the camera shakes, the shake parameters are positive and the
    /// recorded original position is a valid world coordinate.
    pub open spec fn inv(self) -> bool {
        self.is_shaking ==> {
            &&& 0 < self.shake_intensity <= COORD_LIMIT
            &&& 0 <= self.shake_duration <= TIME_LIMIT
            &&& 0 <= self.shake_decrease_factor <= TIME_LIMIT
            &&& -COORD_LIMIT <= self.original_position.x <= COORD_LIMIT
            &&& -COORD_LIMIT <= self.original_position.y <= COORD_LIMIT
        }
    }

    /// A camera at rest: default game object, black clear color, no shake.
    pub fn new() -> (r: Self)
        ensures
            r == (GameView {
                game_object: GameObject::default_spec(),
                color: Color { r: 0, g: 0, b: 0, a: SCALE },
                is_shaking: false,
                shake_intensity: 0 as i64,
                shake_duration: 0 as i64,
                shake_decrease_factor: 0 as i64,
                original_position: Vector2 { x: 0, y: 0 },
            }),
            r.inv(),
    {
        GameView {
            game_object: GameObject::new(),
            color: Color::black(),
            is_shaking: false,
            shake_intensity: 0,
            shake_duration: 0,
            shake_decrease_factor: 0,
            original_position: Vector2 { x: 0, y: 0 },
        }
    }

    /// Start shaking: record the camera's position at this instant as the
    /// point to return to, and arm the decay parameters. Starting over
    /// while already shaking records the current, possibly jittered,
    /// position, so overlapping shakes may drift.
    pub fn start_shaking(&mut self, intensity: i64, duration: i64, decrease_factor: i64)
        requires
            0 < intensity <= COORD_LIMIT,
            0 <= duration <= TIME_LIMIT,
            0 <= decrease_factor <= TIME_LIMIT,
            -COORD_LIMIT <= old(self).game_object.transform.position.x <= COORD_LIMIT,
            -COORD_LIMIT <= old(self).game_object.transform.position.y <= COORD_LIMIT,
        ensures
            *final(self) == (GameView {
                is_shaking: true,
                shake_intensity: intensity,
                shake_duration: duration,
                shake_decrease_factor: decrease_factor,
                original_position: old(self).game_object.transform.position,
                ..*old(self)
            }),
            final(self).inv(),
    {
        self.shake_intensity = intensity;
        self.shake_duration = duration;
        self.shake_decrease_factor = decrease_factor;
        self.is_shaking = true;
        self.original_position = self.game_object.transform.position;
    }

    /// Stop shaking: restore the camera exactly to the recorded original
    /// position and clear the record. Runs automatically when the shake
    /// duration is exhausted, and may be called early to cancel.
    pub fn stop_shaking(&mut self)
        ensures
            !final(self).is_shaking,
            final(self).game_object.transform.position == old(self).original_position,
            final(self).game_object.transform.rotation == old(self).game_object.transform.rotation,
            final(self).game_object.transform.size == old(self).game_object.transform.size,
            final(self).game_object.transform.radius == old(self).game_object.transform.radius,
            final(self).game_object.is_visible == old(self).game_object.is_visible,
            final(self).game_object.is_parallax == old(self).game_object.is_parallax,
            final(self).game_object.is_bounded == old(self).game_object.is_bounded,
            final(self).color == old(self).color,
            final(self).shake_intensity == old(self).shake_intensity,
            final(self).shake_duration == old(self).shake_duration,
            final(self).shake_decrease_factor == old(self).shake_decrease_factor,
            final(self).original_position == (Vector2 { x: 0 as i64, y: 0 as i64 }),
            final(self).inv(),
    {
        self.is_shaking = false;
        self.game_object.transform.position = self.original_position;
        self.original_position = Vector2 { x: 0, y: 0 };
    }

    /// One frame of shaking: the remaining duration drops by
    /// `frame_time * decrease_factor`; if it is used up the camera stops
    /// and returns exactly to the original position, otherwise the camera
    /// jumps to a random point strictly less than `shake_intensity` away
    /// from the original position on each axis.
    pub fn shake(&mut self, frame_time: i64)
        requires
            old(self).inv(),
            old(self).is_shaking,
            0 <= frame_time <= TIME_LIMIT,
        ensures
            final(self).inv(),
            final(self).color == old(self).color,
            final(self).shake_intensity == old(self).shake_intensity,
            final(self).shake_decrease_factor == old(self).shake_decrease_factor,
            final(self).game_object.transform.rotation == old(self).game_object.transform.rotation,
            final(self).game_object.transform.size == old(self).game_object.transform.size,
            final(self).game_object.transform.radius == old(self).game_object.transform.radius,
            final(self).game_object.is_visible == old(self).game_object.is_visible,
            final(self).game_object.is_parallax == old(self).game_object.is_parallax,
            final(self).game_object.is_bounded == old(self).game_object.is_bounded,
            final(self).shake_duration == old(self).shake_duration - fp_mul_spec(
                frame_time as int,
                old(self).shake_decrease_factor as int,
            ),
            final(self).shake_duration <= 0 ==> {
                &&& !final(self).is_shaking
                &&& final(self).game_object.transform.position == old(self).original_position
                &&& final(self).original_position == (Vector2 { x: 0 as i64, y: 0 as i64 })
            },
            final(self).shake_duration > 0 ==> ({
                let position = final(self).game_object.transform.position;
                let origin = old(self).original_position;
                let intensity = old(self).shake_intensity;
                &&& final(self).is_shaking
                &&& final(self).original_position == origin
                &&& origin.x - intensity <= position.x < origin.x + intensity
                &&& origin.y - intensity <= position.y < origin.y + intensity
            }),
    {
        proof {
            assert(0 <= frame_time * self.shake_decrease_factor
                <= 1_000_000_000_000_000_000) by (nonlinear_arith)
                requires
                    0 <= frame_time <= TIME_LIMIT,
                    0 <= self.shake_decrease_factor <= TIME_LIMIT,
            ;
            vstd::arithmetic::div_mod::lemma_div_nonincreasing(
                frame_time * self.shake_decrease_factor,
                SCALE as int,
            );
            vstd::arithmetic::div_mod::lemma_div_pos_is_pos(
                frame_time * self.shake_decrease_factor,
                SCALE as int,
            );
        }
        let decrement: i64 = fp_mul(frame_time, self.shake_decrease_factor);
        self.shake_duration = self.shake_duration - decrement;

        if self.shake_duration <= 0 {
            self.stop_shaking();
        } else {
            let jitter_x: i64 = random_in_range(-self.shake_intensity, self.shake_intensity);
            let jitter_y: i64 = random_in_range(-self.shake_intensity, self.shake_intensity);
            self.game_object.transform.position = Vector2 {
                x: self.original_position.x + jitter_x,
                y: self.original_position.y + jitter_y,
            };
        }
    }
}

} // verus!
