//! The Runner's typestate values: one zero-sized tag per named state, each
//! paired with the shared context. Transition functions consume the current
//! state value and produce the next one.

use vstd::prelude::*;
use crate::game;
use super::context::RedHatBoyContext;

verus! {

#[derive(Clone, Copy, PartialEq, Eq, Structural, Debug)]
pub struct Idle;

#[derive(Clone, Copy, PartialEq, Eq, Structural, Debug)]
pub struct Jumping;

#[derive(Clone, Copy, PartialEq, Eq, Structural, Debug)]
pub struct Falling;

#[derive(Clone, Copy, PartialEq, Eq, Structural, Debug)]
pub struct KnockedOut;

#[derive(Clone, Copy, PartialEq, Eq, Structural, Debug)]
pub struct Running;

#[derive(Clone, Copy, PartialEq, Eq, Structural, Debug)]
pub struct Sliding;

/// A state of the Runner's machine: the shared context plus a zero-sized
/// state tag.
#[derive(Clone, Copy, Debug)]
#[verifier::ext_equal]
pub struct RedHatBoyState<S> {
    pub context: RedHatBoyContext,
    pub _state: S,
}

pub const FALL_FRAME_NAME: &'static str = "Dead";

pub const IDLE_FRAME_NAME: &'static str = "Idle";

pub const JUMP_FRAME_NAME: &'static str = "Jump";

pub const DEAD_FRAME_NAME: &'static str = "Dead";

pub const RUN_FRAME_NAME: &'static str = "Run";

pub const SLIDE_FRAME_NAME: &'static str = "Slide";

/// Animation frame ceilings: three ticks per animation frame, so each is
/// (animation frame count * 3) - 1.
pub const IDLE_FRAMES: u8 = 29;

pub const JUMPING_FRAMES: u8 = 35;

pub const FALLING_FRAMES: u8 = 29;

pub const RUNNING_FRAMES: u8 = 23;

pub const SLIDING_FRAMES: u8 = 14;

/// Vertical take-off velocity of a jump.
pub const JUMP_SPEED: i16 = -25;

impl<S> RedHatBoyState<S> {
    pub fn context(&self) -> (r: &RedHatBoyContext)
        ensures
            *r == self.context,
    {
        &self.context
    }
}

impl RedHatBoyState<Idle> {
    /// The initial state of a fresh run.
    pub fn new() -> (r: RedHatBoyState<Idle>)
        ensures
            r.context == RedHatBoyContext::spec_initial(),
    {
        RedHatBoyState { context: RedHatBoyContext::new(), _state: Idle }
    }

    pub fn frame_name(&self) -> (r: &'static str)
        ensures
            r@ == IDLE_FRAME_NAME@,
    {
        IDLE_FRAME_NAME
    }

    /// `Run` command: starts running to the right, with a fresh animation.
    pub fn run(self) -> (r: RedHatBoyState<Running>)
        ensures
            r.context == self.context.spec_reset_frame().spec_run_right(),
    {
        RedHatBoyState { context: self.context.reset_frame().run_right(), _state: Running }
    }

    pub fn update(self) -> (r: RedHatBoyState<Idle>)
        ensures
            r.context == self.context.spec_update(IDLE_FRAMES),
    {
        RedHatBoyState { context: self.context.update(IDLE_FRAMES), _state: Idle }
    }
}

impl RedHatBoyState<Running> {
    pub fn frame_name(&self) -> (r: &'static str)
        ensures
            r@ == RUN_FRAME_NAME@,
    {
        RUN_FRAME_NAME
    }

    /// `Jump` command: takes off with the jump velocity and a fresh
    /// animation.
    pub fn jump(self) -> (r: RedHatBoyState<Jumping>)
        ensures
            r.context == self.context.spec_set_vertical_velocity(JUMP_SPEED).spec_reset_frame(),
    {
        RedHatBoyState {
            context: self.context.set_vertical_velocity(JUMP_SPEED).reset_frame(),
            _state: Jumping,
        }
    }

    /// `KnockOut` event: halts and begins the falling animation.
    pub fn knock_out(self) -> (r: RedHatBoyState<Falling>)
        ensures
            r.context == self.context.spec_reset_frame().spec_stop(),
    {
        RedHatBoyState { context: self.context.reset_frame().stop(), _state: Falling }
    }

    /// `Land(position)` event: rests on the surface at height `position`.
    /// Landing while already running keeps the current animation frame.
    pub fn land_on(self, position: i16) -> (r: RedHatBoyState<Running>)
        ensures
            r.context == self.context.spec_set_on(position as int),
    {
        RedHatBoyState { context: self.context.set_on(position), _state: Running }
    }

    /// `Slide` command: ducks into the sliding animation.
    pub fn slide(self) -> (r: RedHatBoyState<Sliding>)
        ensures
            r.context == self.context.spec_reset_frame(),
    {
        RedHatBoyState { context: self.context.reset_frame(), _state: Sliding }
    }

    pub fn update(self) -> (r: RedHatBoyState<Running>)
        ensures
            r.context == self.context.spec_update(RUNNING_FRAMES),
    {
        RedHatBoyState { context: self.context.update(RUNNING_FRAMES), _state: Running }
    }
}

impl RedHatBoyState<Jumping> {
    pub fn frame_name(&self) -> (r: &'static str)
        ensures
            r@ == JUMP_FRAME_NAME@,
    {
        JUMP_FRAME_NAME
    }

    pub fn knock_out(self) -> (r: RedHatBoyState<Falling>)
        ensures
            r.context == self.context.spec_reset_frame().spec_stop(),
    {
        RedHatBoyState { context: self.context.reset_frame().stop(), _state: Falling }
    }

    /// Landing from a jump starts the running animation from frame 0.
    pub fn land_on(self, position: i16) -> (r: RedHatBoyState<Running>)
        ensures
            r.context == self.context.spec_reset_frame().spec_set_on(position as int),
    {
        RedHatBoyState { context: self.context.reset_frame().set_on(position), _state: Running }
    }

    /// One tick while airborne; once the Runner reaches its floor again it
    /// lands there and returns to `Running`.
    pub fn update(self) -> (r: JumpingEndState)
        ensures
            ({
                let next = self.context.spec_update(JUMPING_FRAMES);
                if next.position.y >= next.spec_resting() {
                    r matches JumpingEndState::Landing(s)
                        && s.context == next.spec_reset_frame().spec_set_on(next.floor as int)
                } else {
                    r matches JumpingEndState::Jumping(s) && s.context == next
                }
            }),
    {
        let context = self.context.update(JUMPING_FRAMES);
        let floor = context.floor;
        let next = RedHatBoyState { context, _state: Jumping };

        if next.context.position.y >= crate::rect::sat_add(floor, -super::context::PLAYER_HEIGHT) {
            JumpingEndState::Landing(next.land_on(floor))
        } else {
            JumpingEndState::Jumping(next)
        }
    }
}

pub enum JumpingEndState {
    Jumping(RedHatBoyState<Jumping>),
    Landing(RedHatBoyState<Running>),
}

impl RedHatBoyState<Sliding> {
    pub fn frame_name(&self) -> (r: &'static str)
        ensures
            r@ == SLIDE_FRAME_NAME@,
    {
        SLIDE_FRAME_NAME
    }

    pub fn knock_out(self) -> (r: RedHatBoyState<Falling>)
        ensures
            r.context == self.context.spec_reset_frame().spec_stop(),
    {
        RedHatBoyState { context: self.context.reset_frame().stop(), _state: Falling }
    }

    pub fn land_on(self, position: i16) -> (r: RedHatBoyState<Sliding>)
        ensures
            r.context == self.context.spec_set_on(position as int),
    {
        RedHatBoyState { context: self.context.set_on(position), _state: Sliding }
    }

    /// One tick of the finite sliding animation; at the frame ceiling the
    /// Runner stands back up into `Running`.
    pub fn update(self) -> (r: SlidingEndState)
        ensures
            ({
                let next = self.context.spec_update(SLIDING_FRAMES);
                if next.frame >= SLIDING_FRAMES {
                    r matches SlidingEndState::Complete(s) && s.context == next.spec_reset_frame()
                } else {
                    r matches SlidingEndState::Sliding(s) && s.context == next
                }
            }),
    {
        let context = self.context.update(SLIDING_FRAMES);
        let next = RedHatBoyState { context, _state: Sliding };

        if next.context.frame >= SLIDING_FRAMES {
            SlidingEndState::Complete(next.stand())
        } else {
            SlidingEndState::Sliding(next)
        }
    }

    fn stand(self) -> (r: RedHatBoyState<Running>)
        ensures
            r.context == self.context.spec_reset_frame(),
    {
        RedHatBoyState { context: self.context.reset_frame(), _state: Running }
    }
}

pub enum SlidingEndState {
    Complete(RedHatBoyState<Running>),
    Sliding(RedHatBoyState<Sliding>),
}

impl RedHatBoyState<Falling> {
    pub fn frame_name(&self) -> (r: &'static str)
        ensures
            r@ == FALL_FRAME_NAME@,
    {
        FALL_FRAME_NAME
    }

    /// One tick of the finite falling animation; at the frame ceiling the
    /// Runner is knocked out for good.
    pub fn update(self) -> (r: FallingEndState)
        ensures
            ({
                let next = self.context.spec_update(FALLING_FRAMES);
                if next.frame >= FALLING_FRAMES {
                    r matches FallingEndState::Complete(s) && s.context == next
                } else {
                    r matches FallingEndState::Falling(s) && s.context == next
                }
            }),
    {
        let context = self.context.update(FALLING_FRAMES);
        let next = RedHatBoyState { context, _state: Falling };

        if next.context.frame >= FALLING_FRAMES {
            FallingEndState::Complete(next.dead())
        } else {
            FallingEndState::Falling(next)
        }
    }

    fn dead(self) -> (r: RedHatBoyState<KnockedOut>)
        ensures
            r.context == self.context,
    {
        RedHatBoyState { context: self.context, _state: KnockedOut }
    }
}

pub enum FallingEndState {
    Complete(RedHatBoyState<KnockedOut>),
    Falling(RedHatBoyState<Falling>),
}

impl RedHatBoyState<KnockedOut> {
    pub fn frame_name(&self) -> (r: &'static str)
        ensures
            r@ == DEAD_FRAME_NAME@,
    {
        DEAD_FRAME_NAME
    }
}

} // verus!
