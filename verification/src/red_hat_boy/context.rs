//! The Runner's physics and animation context: position, velocity, frame
//! counter and the floor the Runner currently rests on. Mutated only by the
//! state-transition functions of the Runner's state machine.

use vstd::prelude::*;
use crate::game;
use crate::rect::{sat, sat_add, Point};

verus! {

/// Sprite y position of the Runner when standing on the ground.
pub const FLOOR: i16 = 479;

/// Logical height of the Runner: the distance from its sprite y position to
/// the surface its feet rest on.
pub const PLAYER_HEIGHT: i16 = game::HEIGHT - FLOOR;

/// Sprite x position at the start of a run.
pub const STARTING_POINT: i16 = -20;

/// The sprite y position at which an entity of logical height `height`
/// rests on a floor at surface height `floor`.
pub open spec fn spec_resting_y(floor: int, height: int) -> int {
    sat(floor - height)
}

#[derive(Clone, Copy, PartialEq, Eq, Structural, Debug)]
pub struct RedHatBoyContext {
    /// Animation frame counter of the active state.
    pub frame: u8,
    /// Sprite position (top-left corner).
    pub position: Point,
    pub velocity: Point,
    /// Surface height of the floor the Runner rests on: the ground
    /// (`game::HEIGHT`) or the top of a platform.
    pub floor: i16,
}

impl RedHatBoyContext {
    /// The sprite y position at which the Runner rests on its current floor.
    pub open spec fn spec_resting(self) -> int {
        spec_resting_y(self.floor as int, PLAYER_HEIGHT as int)
    }

    /// One tick of physics and animation: gravity up to the terminal
    /// velocity, frame wraparound at `frame_count`, vertical integration
    /// clamped to the current floor.
    pub open spec fn spec_update(self, frame_count: u8) -> RedHatBoyContext {
        let vy = if self.velocity.y < game::TERMINAL_VELOCITY {
            self.velocity.y + 1
        } else {
            self.velocity.y as int
        };
        let frame = if self.frame < frame_count {
            self.frame + 1
        } else {
            0
        };
        let fallen = sat(self.position.y + vy);
        let y = if fallen > self.spec_resting() {
            self.spec_resting()
        } else {
            fallen
        };
        RedHatBoyContext {
            frame: frame as u8,
            position: Point { x: self.position.x, y: y as i16 },
            velocity: Point { x: self.velocity.x, y: vy as i16 },
            floor: self.floor,
        }
    }

    pub open spec fn spec_reset_frame(self) -> RedHatBoyContext {
        RedHatBoyContext { frame: 0, ..self }
    }

    pub open spec fn spec_run_right(self) -> RedHatBoyContext {
        RedHatBoyContext {
            velocity: Point {
                x: sat(self.velocity.x + game::RUNNING_SPEED) as i16,
                y: self.velocity.y,
            },
            ..self
        }
    }

    pub open spec fn spec_set_on(self, position: int) -> RedHatBoyContext {
        RedHatBoyContext {
            position: Point {
                x: self.position.x,
                y: spec_resting_y(position, PLAYER_HEIGHT as int) as i16,
            },
            velocity: Point { x: self.velocity.x, y: 0 },
            floor: position as i16,
            ..self
        }
    }

    pub open spec fn spec_set_vertical_velocity(self, y: i16) -> RedHatBoyContext {
        RedHatBoyContext { velocity: Point { x: self.velocity.x, y }, ..self }
    }

    pub open spec fn spec_stop(self) -> RedHatBoyContext {
        RedHatBoyContext { velocity: Point { x: 0, y: 0 }, ..self }
    }

    /// The initial context: idle at the starting point, standing on the
    /// ground.
    pub open spec fn spec_initial() -> RedHatBoyContext {
        RedHatBoyContext {
            frame: 0,
            position: Point { x: STARTING_POINT, y: FLOOR },
            velocity: Point { x: 0, y: 0 },
            floor: game::HEIGHT,
        }
    }

    /// The initial context: idle at the starting point, standing on the
    /// ground.
    pub fn new() -> (r: RedHatBoyContext)
        ensures
            r == RedHatBoyContext::spec_initial(),
    {
        RedHatBoyContext {
            frame: 0,
            position: Point { x: STARTING_POINT, y: FLOOR },
            velocity: Point { x: 0, y: 0 },
            floor: game::HEIGHT,
        }
    }

    /// Advances physics and animation by one tick.
    ///
    /// The frame counter advances and loops back to 0 once it has passed
    /// `frame_count`; gravity raises the vertical velocity up to the
    /// terminal velocity; the position is integrated by the velocity and the
    /// vertical position never passes through the current floor.
    pub fn update(self, frame_count: u8) -> (r: RedHatBoyContext)
        ensures
            r == self.spec_update(frame_count),
            r.position.y <= r.spec_resting(),
            r.position.y <= r.floor,
            r.floor == self.floor,
    {
        let mut next = self;
        if next.velocity.y < game::TERMINAL_VELOCITY {
            next.velocity.y = next.velocity.y + 1;
        }

        if next.frame < frame_count {
            next.frame = next.frame + 1;
        } else {
            next.frame = 0;
        }

        next.position.y = sat_add(next.position.y, next.velocity.y);

        let resting = sat_add(next.floor, -PLAYER_HEIGHT);
        if next.position.y > resting {
            next.position.y = resting;
        }

        next
    }

    /// Restarts the active state's animation at frame 0.
    pub fn reset_frame(self) -> (r: RedHatBoyContext)
        ensures
            r == self.spec_reset_frame(),
    {
        let mut next = self;
        next.frame = 0;

        next
    }

    /// Accelerates to the right by the running speed.
    pub fn run_right(self) -> (r: RedHatBoyContext)
        ensures
            r == self.spec_run_right(),
    {
        let mut next = self;
        next.velocity.x = sat_add(next.velocity.x, game::RUNNING_SPEED);

        next
    }

    /// Lands on a surface at height `position`: the floor becomes that
    /// surface, the Runner rests on it, and the vertical velocity is reset.
    pub fn set_on(self, position: i16) -> (r: RedHatBoyContext)
        ensures
            r == self.spec_set_on(position as int),
    {
        let mut next = self;
        next.position.y = sat_add(position, -PLAYER_HEIGHT);
        next.velocity.y = 0;
        next.floor = position;

        next
    }

    pub fn set_vertical_velocity(self, y: i16) -> (r: RedHatBoyContext)
        ensures
            r == self.spec_set_vertical_velocity(y),
    {
        let mut next = self;
        next.velocity.y = y;

        next
    }

    /// Halts all motion.
    pub fn stop(self) -> (r: RedHatBoyContext)
        ensures
            r == self.spec_stop(),
    {
        let mut next = self;
        next.velocity.x = 0;
        next.velocity.y = 0;

        next
    }
}

/// `ctx` after `n` ticks with frame ceiling `frame_count`.
pub open spec fn spec_updates(ctx: RedHatBoyContext, frame_count: u8, n: nat) -> RedHatBoyContext
    decreases n,
{
    if n == 0 {
        ctx
    } else {
        spec_updates(ctx, frame_count, (n - 1) as nat).spec_update(frame_count)
    }
}

/// Law (frame wraparound): starting a fresh animation, the frame counter
/// counts one step per tick up to the frame ceiling, and the tick after
/// reaching the ceiling loops it back to 0.
pub proof fn lemma_frame_wraparound(ctx: RedHatBoyContext, frame_count: u8, n: nat)
    requires
        ctx.frame == 0,
        1 <= n <= frame_count + 1,
    ensures
        spec_updates(ctx, frame_count, n).frame == if n <= frame_count {
            n
        } else {
            0nat
        },
    decreases n,
{
    if n > 1 {
        lemma_frame_wraparound(ctx, frame_count, (n - 1) as nat);
    } else {
        assert(spec_updates(ctx, frame_count, 0) == ctx);
    }
}

/// Law (floor clamp): after any tick, the vertical position never passes
/// through the current floor: the Runner never rests below the surface it
/// stands on.
pub proof fn lemma_floor_clamp(ctx: RedHatBoyContext, frame_count: u8)
    ensures
        ctx.spec_update(frame_count).position.y <= ctx.spec_update(frame_count).spec_resting(),
        ctx.spec_update(frame_count).position.y <= ctx.spec_update(frame_count).floor,
{
}

} // verus!
