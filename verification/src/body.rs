//! Axis-aligned rectangles that move: the ball and the paddle.

use vstd::prelude::*;
use crate::units::{advance, saturate};

verus! {

/// Width of the playing field, in billionths of a pixel.
pub const FIELD_WIDTH: i64 = 800_000_000_000;

/// Height of the playing field, in billionths of a pixel.
pub const FIELD_HEIGHT: i64 = 600_000_000_000;

/// A rectangle with a position, an extent and a velocity. The origin is the
/// top-left corner of the field, `x` grows to the right and `y` downwards.
/// Positions and extents are in billionths of a pixel, velocities in pixels
/// per second.
#[derive(Clone, Copy, Debug, PartialEq, Eq, Structural)]
pub struct Body {
    pub x: i64,
    pub y: i64,
    pub width: i64,
    pub height: i64,
    pub vel_x: i64,
    pub vel_y: i64,
}

/// The velocity `vel`, turned round where `turn` holds.
pub open spec fn turned(vel: i64, turn: bool) -> i64
    recommends
        vel > i64::MIN,
{
    if turn {
        (-vel) as i64
    } else {
        vel
    }
}

impl Body {
    /// The coordinate of the right edge.
    pub open spec fn right(self) -> int {
        self.x + self.width
    }

    /// The coordinate of the bottom edge.
    pub open spec fn bottom(self) -> int {
        self.y + self.height
    }

    /// The body after `dt` nanoseconds of motion along both axes.
    pub open spec fn moved(self, dt: u64) -> Body {
        Body {
            x: saturate(self.x + self.vel_x * dt),
            y: saturate(self.y + self.vel_y * dt),
            ..self
        }
    }

    /// The body after `dt` nanoseconds of horizontal motion only.
    pub open spec fn slid(self, dt: u64) -> Body {
        Body { x: saturate(self.x + self.vel_x * dt), ..self }
    }

    /// The left edge is on or beyond the left wall, or the right edge on or
    /// beyond the right wall.
    pub open spec fn meets_side_wall(self) -> bool {
        self.x <= 0 || self.right() >= FIELD_WIDTH
    }

    /// The top edge is on or above the top of the field.
    pub open spec fn meets_ceiling(self) -> bool {
        self.y <= 0
    }

    /// The bottom edge is strictly below the bottom of the field.
    pub open spec fn is_below_floor(self) -> bool {
        self.bottom() > FIELD_HEIGHT
    }

    /// The bottom edge has reached the top of `paddle` and the horizontal
    /// spans of the two bodies share at least one point.
    pub open spec fn meets_paddle(self, paddle: Body) -> bool {
        &&& self.bottom() >= paddle.y
        &&& self.right() >= paddle.x
        &&& self.x <= paddle.right()
    }

    /// The position at which the body sits in the middle of the field.
    pub open spec fn centre(self) -> (i64, i64) {
        ((FIELD_WIDTH / 2 - self.width / 2) as i64, (FIELD_HEIGHT / 2 - self.height / 2) as i64)
    }

    /// The body in the middle of the field, moving at (`vel_x`, `vel_y`).
    pub open spec fn centred(self, vel_x: i64, vel_y: i64) -> Body {
        Body { x: self.centre().0, y: self.centre().1, vel_x, vel_y, ..self }
    }

    /// The body with the velocity that it has after meeting the walls and
    /// `paddle`: the horizontal part is turned round once at a side wall, the
    /// vertical part once at the ceiling and once more at the paddle.
    pub open spec fn deflected(self, paddle: Body) -> Body
        recommends
            self.vel_x > i64::MIN,
            self.vel_y > i64::MIN,
    {
        Body {
            vel_x: turned(self.vel_x, self.meets_side_wall()),
            vel_y: turned(turned(self.vel_y, self.meets_ceiling()), self.meets_paddle(paddle)),
            ..self
        }
    }

    /// The body with its left edge held inside `[0, FIELD_WIDTH - width]`.
    pub open spec fn held_in_field(self) -> Body {
        Body {
            x: if self.x <= 0 {
                0
            } else if self.x >= FIELD_WIDTH - self.width {
                (FIELD_WIDTH - self.width) as i64
            } else {
                self.x
            },
            ..self
        }
    }

    /// Moves the body along both axes for `dt` nanoseconds.
    pub fn integrate(&mut self, dt: u64)
        ensures
            *final(self) == old(self).moved(dt),
    {
        self.x = advance(self.x, self.vel_x, dt);
        self.y = advance(self.y, self.vel_y, dt);
    }

    /// Moves the body horizontally for `dt` nanoseconds.
    pub fn integrate_x(&mut self, dt: u64)
        ensures
            *final(self) == old(self).slid(dt),
    {
        self.x = advance(self.x, self.vel_x, dt);
    }

    /// Whether the body touches or has crossed the left or the right wall.
    pub fn hits_side_wall(&self) -> (hit: bool)
        ensures
            hit == self.meets_side_wall(),
    {
        self.x <= 0 || (self.x as i128) + (self.width as i128) >= FIELD_WIDTH as i128
    }

    /// Whether the body touches or has crossed the top of the field.
    pub fn hits_ceiling(&self) -> (hit: bool)
        ensures
            hit == self.meets_ceiling(),
    {
        self.y <= 0
    }

    /// Whether the body has sunk below the bottom of the field.
    pub fn fell_out(&self) -> (out: bool)
        ensures
            out == self.is_below_floor(),
    {
        (self.y as i128) + (self.height as i128) > FIELD_HEIGHT as i128
    }

    /// Whether the body touches `paddle` from above or overlaps it.
    pub fn hits_paddle(&self, paddle: &Body) -> (hit: bool)
        ensures
            hit == self.meets_paddle(*paddle),
    {
        (self.y as i128) + (self.height as i128) >= paddle.y as i128
            && (self.x as i128) + (self.width as i128) >= paddle.x as i128
            && self.x as i128 <= (paddle.x as i128) + (paddle.width as i128)
    }

    /// Puts the body in the middle of the field and gives it the velocity
    /// (`vel_x`, `vel_y`).
    pub fn place_at_centre(&mut self, vel_x: i64, vel_y: i64)
        requires
            old(self).width >= 0,
            old(self).height >= 0,
        ensures
            *final(self) == old(self).centred(vel_x, vel_y),
    {
        self.x = FIELD_WIDTH / 2 - self.width / 2;
        self.y = FIELD_HEIGHT / 2 - self.height / 2;
        self.vel_x = vel_x;
        self.vel_y = vel_y;
    }

    /// Turns the velocity round where the body meets a wall or `paddle`.
    pub fn deflect(&mut self, paddle: &Body)
        requires
            old(self).vel_x > i64::MIN,
            old(self).vel_y > i64::MIN,
        ensures
            *final(self) == old(self).deflected(*paddle),
    {
        if self.hits_side_wall() {
            self.vel_x = -self.vel_x;
        }
        if self.hits_ceiling() {
            self.vel_y = -self.vel_y;
        }
        if self.hits_paddle(paddle) {
            self.vel_y = -self.vel_y;
        }
    }

    /// Pushes the body back between the side walls.
    pub fn hold_in_field(&mut self)
        requires
            0 <= old(self).width <= FIELD_WIDTH,
        ensures
            *final(self) == old(self).held_in_field(),
    {
        if self.x <= 0 {
            self.x = 0;
        }
        if self.x >= FIELD_WIDTH - self.width {
            self.x = FIELD_WIDTH - self.width;
        }
    }
}

} // verus!
