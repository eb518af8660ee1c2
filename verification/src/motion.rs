//! The bounce motion: a 2D position integrated with a constant-speed
//! direction vector that reflects on boundary contact, a rotation angle
//! accumulated modulo a full turn, and a frame counter that wraps.

use vstd::prelude::*;
use vstd::arithmetic::div_mod::lemma_add_mod_noop;
use vstd::arithmetic::div_mod::lemma_small_mod;

verus! {

/// Units the label moves along each axis per frame.
pub const SPEED: i32 = 5;

/// Degrees of rotation added per frame.
pub const ROTATION_STEP: u32 = 2;

/// The rotation angle is kept below a full turn of this many degrees.
pub const FULL_TURN: u32 = 360;

/// The frame counter wraps within `[0, COUNTER_PERIOD)`.
pub const COUNTER_PERIOD: u8 = 255;

/// The per-frame animation state: the label's position, the sign of its
/// direction along each axis, its rotation angle in whole degrees, and
/// the wrapping frame counter.
#[derive(Clone, Copy, PartialEq, Eq, Structural, Debug)]
pub struct AnimationState {
    /// Horizontal position of the label's left edge.
    pub x: i32,
    /// Vertical position of the label's top edge.
    pub y: i32,
    /// Direction sign along x: the label moves `dx * SPEED` per frame.
    pub dx: i32,
    /// Direction sign along y: the label moves `dy * SPEED` per frame.
    pub dy: i32,
    /// Rotation angle in degrees, always in `[0, FULL_TURN)`.
    pub angle: u32,
    /// Frame counter, always in `[0, COUNTER_PERIOD)`.
    pub counter: u8,
}

/// The rotation angle after one frame: two more degrees, modulo a full turn.
pub open spec fn next_angle(angle: int) -> int {
    (angle + ROTATION_STEP) % (FULL_TURN as int)
}

/// The frame counter after one frame: one more, wrapping within
/// `[0, COUNTER_PERIOD)`.
pub open spec fn next_counter(counter: int) -> int {
    (counter + 1) % (COUNTER_PERIOD as int)
}

/// Whether a position, already moved for this frame, is in contact with
/// either boundary of its axis: at or past the low edge, or with its far
/// side (position plus label extent) at or past the high edge.
pub open spec fn hits_boundary(pos: int, label: int, bound: int) -> bool {
    pos <= 0 || pos + label >= bound
}

/// The rotation angle after `n` frames.
pub open spec fn angle_after(angle: int, n: nat) -> int
    decreases n,
{
    if n == 0 {
        angle
    } else {
        next_angle(angle_after(angle, (n - 1) as nat))
    }
}

/// The frame counter after `n` frames.
pub open spec fn counter_after(counter: int, n: nat) -> int
    decreases n,
{
    if n == 0 {
        counter
    } else {
        next_counter(counter_after(counter, (n - 1) as nat))
    }
}

impl AnimationState {
    /// The state's invariant: direction signs are exactly `+1` or `-1`
    /// (so the velocity magnitude is fixed at `SPEED`), the angle is
    /// within a turn, and the counter is within its period.
    pub open spec fn wf(self) -> bool {
        &&& self.dx == 1 || self.dx == -1
        &&& self.dy == 1 || self.dy == -1
        &&& self.angle < FULL_TURN
        &&& self.counter < COUNTER_PERIOD
    }

    /// The state the animation starts in: position at the origin, moving
    /// down-right, unrotated, counter at zero.
    pub open spec fn initial() -> AnimationState {
        AnimationState { x: 0, y: 0, dx: 1, dy: 1, angle: 0, counter: 0 }
    }

    /// Build the starting state.
    pub fn init() -> (s: AnimationState)
        ensures
            s == AnimationState::initial(),
            s.wf(),
    {
        AnimationState { x: 0, y: 0, dx: 1, dy: 1, angle: 0, counter: 0 }
    }

    /// Advance the motion by one frame: move the position by the direction
    /// scaled by `SPEED`, add `ROTATION_STEP` to the angle modulo a full
    /// turn, then reflect each axis whose already-moved position is in
    /// contact with a boundary. Contact is checked after the move, so a
    /// one-frame overshoot past the boundary is possible and intended.
    /// Both edges of an axis are checked together, so a position touching
    /// both at once flips that axis exactly once. The frame counter is
    /// untouched.
    pub fn step(&mut self, bounds_w: u32, bounds_h: u32, label_w: u32, label_h: u32)
        requires
            old(self).wf(),
            old(self).x + SPEED <= i32::MAX,
            old(self).x - SPEED >= i32::MIN,
            old(self).y + SPEED <= i32::MAX,
            old(self).y - SPEED >= i32::MIN,
        ensures
            final(self).wf(),
            final(self).x == old(self).x + old(self).dx * SPEED,
            final(self).y == old(self).y + old(self).dy * SPEED,
            final(self).angle as int == next_angle(old(self).angle as int),
            final(self).dx as int == if hits_boundary(
                final(self).x as int,
                label_w as int,
                bounds_w as int,
            ) {
                -(old(self).dx as int)
            } else {
                old(self).dx as int
            },
            final(self).dy as int == if hits_boundary(
                final(self).y as int,
                label_h as int,
                bounds_h as int,
            ) {
                -(old(self).dy as int)
            } else {
                old(self).dy as int
            },
            final(self).counter == old(self).counter,
    {
        self.x = self.x + self.dx * SPEED;
        self.y = self.y + self.dy * SPEED;
        self.angle = (self.angle + ROTATION_STEP) % FULL_TURN;
        if self.x <= 0 || self.x as i64 + label_w as i64 >= bounds_w as i64 {
            self.dx = -self.dx;
        }
        if self.y <= 0 || self.y as i64 + label_h as i64 >= bounds_h as i64 {
            self.dy = -self.dy;
        }
    }

    /// Advance the frame counter by one, wrapping within its period.
    /// Nothing else changes.
    pub fn advance_counter(&mut self)
        requires
            old(self).wf(),
        ensures
            final(self).wf(),
            final(self).counter as int == next_counter(old(self).counter as int),
            final(self).x == old(self).x,
            final(self).y == old(self).y,
            final(self).dx == old(self).dx,
            final(self).dy == old(self).dy,
            final(self).angle == old(self).angle,
    {
        self.counter = (self.counter + 1) % COUNTER_PERIOD;
    }
}

/// The angle after `n` frames in closed form: the start plus two degrees
/// per frame, modulo a full turn.
pub proof fn lemma_angle_after_closed_form(angle: int, n: nat)
    requires
        0 <= angle < FULL_TURN,
    ensures
        angle_after(angle, n) == (angle + ROTATION_STEP * n) % (FULL_TURN as int),
    decreases n,
{
    if n == 0 {
        lemma_small_mod(angle as nat, FULL_TURN as nat);
    } else {
        lemma_angle_after_closed_form(angle, (n - 1) as nat);
        lemma_add_mod_noop(angle + ROTATION_STEP * (n - 1), ROTATION_STEP as int, FULL_TURN as int);
        lemma_small_mod(ROTATION_STEP as nat, FULL_TURN as nat);
    }
}

/// Half a period of the rotation, in frames: at two degrees per frame,
/// this many frames add exactly one full turn.
pub const HALF_TURN_FRAMES: u64 = 180;

/// Rotation is periodic: 180 frames advance the angle by
/// `360 mod 360 = 0` degrees, so the angle returns to where it started.
pub proof fn lemma_rotation_period(angle: int)
    requires
        0 <= angle < FULL_TURN,
    ensures
        angle_after(angle, HALF_TURN_FRAMES as nat) == angle,
{
    lemma_angle_after_closed_form(angle, HALF_TURN_FRAMES as nat);
    lemma_add_mod_noop(angle, FULL_TURN as int, FULL_TURN as int);
    lemma_small_mod(angle as nat, FULL_TURN as nat);
}

/// The counter after `n` frames in closed form: the start plus one per
/// frame, modulo the period.
pub proof fn lemma_counter_after_closed_form(counter: int, n: nat)
    requires
        0 <= counter < COUNTER_PERIOD,
    ensures
        counter_after(counter, n) == (counter + n) % (COUNTER_PERIOD as int),
    decreases n,
{
    if n == 0 {
        lemma_small_mod(counter as nat, COUNTER_PERIOD as nat);
    } else {
        lemma_counter_after_closed_form(counter, (n - 1) as nat);
        lemma_add_mod_noop(counter + (n - 1), 1, COUNTER_PERIOD as int);
        lemma_small_mod(1, COUNTER_PERIOD as nat);
    }
}

/// The counter never leaves `[0, COUNTER_PERIOD)`, however many frames pass.
pub proof fn lemma_counter_in_range(counter: int, n: nat)
    requires
        0 <= counter < COUNTER_PERIOD,
    ensures
        0 <= counter_after(counter, n) < COUNTER_PERIOD,
{
    lemma_counter_after_closed_form(counter, n);
}

/// The counter is periodic: a full period of 255 frames returns it to its
/// starting value, and it never reaches 255 on the way.
pub proof fn lemma_counter_period(counter: int)
    requires
        0 <= counter < COUNTER_PERIOD,
    ensures
        counter_after(counter, COUNTER_PERIOD as nat) == counter,
        forall|n: nat| counter_after(counter, n) < COUNTER_PERIOD,
{
    lemma_counter_after_closed_form(counter, COUNTER_PERIOD as nat);
    lemma_add_mod_noop(counter, COUNTER_PERIOD as int, COUNTER_PERIOD as int);
    lemma_small_mod(counter as nat, COUNTER_PERIOD as nat);
    assert forall|n: nat| counter_after(counter, n) < COUNTER_PERIOD by {
        lemma_counter_in_range(counter, n);
    }
}

} // verus!
