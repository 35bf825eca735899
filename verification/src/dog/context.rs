//! The Companion's physics and animation context, together with the patrol
//! thresholds that drive its autonomous behavior. While updating, the
//! context publishes the events other components react to: landing on the
//! current floor, and straying too close to or too far from home.

use vstd::prelude::*;
use crate::event_queue::{EventPublisher, GameEvent};
use crate::text;
use vstd::string::StringExecFns;
use crate::game;
use crate::rect::{sat, sat_add, sat_neg, Point};

verus! {

/// Logical height of the Companion: the distance from its sprite y position
/// to the surface its feet rest on.
pub const DOG_HEIGHT: i16 = 81;

/// Sprite y position of the Companion when standing on the ground.
pub const DOG_GROUND: i16 = game::HEIGHT - DOG_HEIGHT;

/// Frame ceiling of the ground animations (three ticks per frame).
pub const RUNNING_FRAMES: u8 = 60;

/// Frame ceiling of the airborne animations (three ticks per frame).
pub const JUMPING_FRAMES: u8 = 51;

/// Vertical take-off velocity of a jump.
pub const JUMP_SPEED: i16 = -25;

/// Horizontal position beyond which a fleeing Companion first has to run
/// back toward the screen, rather than flee in place.
pub const FLEE_RETURN_THRESHOLD: i16 = 550;

/// Patrol distance bounds of a carefree Companion.
pub const DISTANCE_MIN: i16 = 300;

pub const DISTANCE_MAX: i16 = 1000;

/// How close a worried Companion stays by the Runner.
pub const WORRIED_DISTANCE_MIN: i16 = 50;

#[derive(Clone, Copy, PartialEq, Eq, Structural, Debug)]
pub struct DogContext {
    /// Patrol distance bounds: drifting beyond them publishes
    /// `DogTooFar` / `DogTooClose`.
    pub distance_max: i16,
    pub distance_min: i16,
    /// Surface height of the floor the Companion rests on: the ground
    /// (`game::HEIGHT`) or the top of a platform.
    pub floor: i16,
    /// Animation frame counter of the active state.
    pub frame: u8,
    /// Sprite position (top-left corner).
    pub position: Point,
    /// The course's scroll velocity, remembered so that on-screen motion
    /// can be told from motion relative to the course.
    pub scrolling_velocity: i16,
    pub velocity: Point,
}

impl DogContext {
    /// The initial context: patrolling on the ground near the left edge.
    pub open spec fn spec_initial() -> DogContext {
        DogContext {
            distance_max: DISTANCE_MAX,
            distance_min: DISTANCE_MIN,
            floor: game::HEIGHT,
            frame: 0,
            position: Point { x: 10, y: DOG_GROUND },
            scrolling_velocity: 0,
            velocity: Point { x: game::RUNNING_SPEED, y: 0 },
        }
    }

    /// The sprite y position at which the Companion rests on its current
    /// floor.
    pub open spec fn spec_resting(self) -> int {
        sat(self.floor - DOG_HEIGHT)
    }

    pub open spec fn spec_on_floor(self) -> bool {
        self.position.y == self.spec_resting()
    }

    /// Moving left relative to the scrolling course.
    pub open spec fn spec_moving_left(self) -> bool {
        self.velocity.x < self.scrolling_velocity
    }

    pub open spec fn spec_moving_right(self) -> bool {
        self.velocity.x >= self.scrolling_velocity
    }

    pub open spec fn spec_too_close(self) -> bool {
        self.spec_moving_left() && self.spec_on_floor() && self.position.x < self.distance_min
    }

    pub open spec fn spec_too_far(self) -> bool {
        self.spec_moving_right() && self.spec_on_floor() && self.position.x > self.distance_max
    }

    /// One tick of physics and animation: frame wraparound at `frame_count`,
    /// gravity up to the terminal velocity, vertical integration clamped to
    /// the current floor, then horizontal integration.
    pub open spec fn spec_update(self, frame_count: u8) -> DogContext {
        let frame = if self.frame < frame_count {
            self.frame + 1
        } else {
            0
        };
        let vy = if self.velocity.y < game::TERMINAL_VELOCITY {
            self.velocity.y + 1
        } else {
            self.velocity.y as int
        };
        let fallen = sat(self.position.y + vy);
        let y = if fallen > self.spec_resting() {
            self.spec_resting()
        } else {
            fallen
        };
        let x = sat(self.position.x + self.velocity.x);
        DogContext {
            frame: frame as u8,
            position: Point { x: x as i16, y: y as i16 },
            velocity: Point { x: self.velocity.x, y: vy as i16 },
            ..self
        }
    }

    /// The events one tick publishes: `DogLandedOnGround` exactly when the
    /// Companion reaches its floor this tick, then `DogTooClose` or
    /// `DogTooFar` while it strays beyond its patrol bounds.
    pub open spec fn spec_update_events(self, frame_count: u8) -> Seq<GameEvent> {
        let next = self.spec_update(frame_count);
        let landed: Seq<GameEvent> = if next.spec_on_floor() && !self.spec_on_floor() {
            seq![GameEvent::DogLandedOnGround]
        } else {
            seq![]
        };
        let strayed: Seq<GameEvent> = if next.spec_too_close() {
            seq![GameEvent::DogTooClose]
        } else if next.spec_too_far() {
            seq![GameEvent::DogTooFar]
        } else {
            seq![]
        };
        landed + strayed
    }

    /// Starts fleeing: the course scrolls backwards beneath the Companion;
    /// beyond the return threshold it first runs back at double speed.
    pub open spec fn spec_flee(self) -> DogContext {
        DogContext {
            scrolling_velocity: (-game::RUNNING_SPEED) as i16,
            velocity: Point {
                x: if self.position.x > FLEE_RETURN_THRESHOLD {
                    (-2 * game::RUNNING_SPEED) as i16
                } else {
                    0
                },
                y: self.velocity.y,
            },
            ..self
        }
    }

    /// Starts worrying: the Companion stops fleeing and stays close.
    pub open spec fn spec_worry(self) -> DogContext {
        DogContext {
            scrolling_velocity: 0,
            velocity: Point { x: game::RUNNING_SPEED, y: self.velocity.y },
            distance_min: WORRIED_DISTANCE_MIN,
            ..self
        }
    }

    /// Reverses horizontal direction relative to the scrolling course.
    pub open spec fn spec_turn_around(self) -> DogContext {
        DogContext {
            velocity: Point {
                x: if self.scrolling_velocity < 0 {
                    (game::RUNNING_SPEED + self.scrolling_velocity) as i16
                } else {
                    sat(-self.velocity.x) as i16
                },
                y: self.velocity.y,
            },
            ..self
        }
    }

    pub open spec fn spec_reset_frame(self) -> DogContext {
        DogContext { frame: 0, ..self }
    }

    pub open spec fn spec_set_vertical_velocity(self, y: i16) -> DogContext {
        DogContext { velocity: Point { x: self.velocity.x, y }, ..self }
    }

    /// Rests on the surface at height `bottom` from now on.
    pub open spec fn spec_set_floor(self, bottom: i16) -> DogContext {
        DogContext { floor: bottom, ..self }
    }

    pub fn new() -> (r: DogContext)
        ensures
            r == DogContext::spec_initial(),
    {
        DogContext {
            distance_max: DISTANCE_MAX,
            distance_min: DISTANCE_MIN,
            floor: game::HEIGHT,
            frame: 0,
            position: Point { x: 10, y: DOG_GROUND },
            scrolling_velocity: 0,
            velocity: Point { x: game::RUNNING_SPEED, y: 0 },
        }
    }

    /// Advances physics and animation by one tick, publishing the landing
    /// and patrol events of this tick.
    pub fn update(self, frame_count: u8, events: &mut EventPublisher) -> (r: DogContext)
        ensures
            r == self.spec_update(frame_count),
            final(events)@ == old(events)@ + self.spec_update_events(frame_count),
            r.position.y <= r.spec_resting(),
            r.position.y <= r.floor,
            r.floor == self.floor,
    {
        let mut next = self;
        if next.frame < frame_count {
            next.frame = next.frame + 1;
        } else {
            next.frame = 0;
        }

        let was_on_floor = self.on_floor();
        if next.velocity.y < game::TERMINAL_VELOCITY {
            next.velocity.y = next.velocity.y + 1;
        }

        next.position.y = sat_add(next.position.y, next.velocity.y);
        let resting = sat_add(next.floor, -DOG_HEIGHT);
        if next.position.y > resting {
            next.position.y = resting;
        }

        if next.position.y == resting && !was_on_floor {
            events.publish(GameEvent::DogLandedOnGround);
        }

        next.position.x = sat_add(next.position.x, next.velocity.x);
        if next.too_close() {
            events.publish(GameEvent::DogTooClose);
        } else if next.too_far() {
            events.publish(GameEvent::DogTooFar);
        }

        proof {
            assert(events@ =~= old(events)@ + self.spec_update_events(frame_count));
        }

        next
    }

    pub fn flee(self) -> (r: DogContext)
        ensures
            r == self.spec_flee(),
    {
        let mut next = self;
        next.scrolling_velocity = -game::RUNNING_SPEED;
        next.velocity.x = if next.position.x > FLEE_RETURN_THRESHOLD {
            -2 * game::RUNNING_SPEED
        } else {
            0
        };

        next
    }

    pub fn worry(self) -> (r: DogContext)
        ensures
            r == self.spec_worry(),
    {
        let mut next = self;
        next.scrolling_velocity = 0;
        next.velocity.x = game::RUNNING_SPEED;
        next.distance_min = WORRIED_DISTANCE_MIN;

        next
    }

    pub fn turn_around(self) -> (r: DogContext)
        ensures
            r == self.spec_turn_around(),
    {
        let mut next = self;
        if next.scrolling_velocity < 0 {
            next.velocity.x = game::RUNNING_SPEED + next.scrolling_velocity;
        } else {
            next.velocity.x = sat_neg(next.velocity.x);
        }

        next
    }

    pub fn reset_frame(self) -> (r: DogContext)
        ensures
            r == self.spec_reset_frame(),
    {
        let mut next = self;
        next.frame = 0;

        next
    }

    pub fn set_vertical_velocity(self, y: i16) -> (r: DogContext)
        ensures
            r == self.spec_set_vertical_velocity(y),
    {
        let mut next = self;
        next.velocity.y = y;

        next
    }

    pub fn set_floor(self, bottom: i16) -> (r: DogContext)
        ensures
            r == self.spec_set_floor(bottom),
    {
        let mut next = self;
        next.floor = bottom;

        next
    }

    /// A one-line description of position, velocity and floor, for
    /// diagnostics.
    pub open spec fn spec_info(self) -> Seq<char> {
        "pos=("@ + text::spec_signed_decimal(self.position.x as int) + ","@
            + text::spec_signed_decimal(self.position.y as int) + ") v=("@
            + text::spec_signed_decimal(self.velocity.x as int) + ","@
            + text::spec_signed_decimal(self.velocity.y as int) + ") floor="@
            + text::spec_signed_decimal(self.floor as int)
    }

    /// A one-line description of position, velocity and floor, for
    /// diagnostics.
    pub fn info(&self) -> (r: String)
        ensures
            r@ == self.spec_info(),
    {
        proof {
            reveal_strlit("pos=(");
            reveal_strlit(",");
            reveal_strlit(") v=(");
            reveal_strlit(") floor=");
        }
        let s = String::from_str("pos=(").concat(
            text::signed_decimal_string(self.position.x).as_str(),
        ).concat(",").concat(text::signed_decimal_string(self.position.y).as_str()).concat(
            ") v=(",
        ).concat(text::signed_decimal_string(self.velocity.x).as_str()).concat(",").concat(
            text::signed_decimal_string(self.velocity.y).as_str(),
        ).concat(") floor=").concat(text::signed_decimal_string(self.floor).as_str());
        proof {
            assert(s@ =~= self.spec_info());
        }
        s
    }

    pub fn moving_left(&self) -> (r: bool)
        ensures
            r == self.spec_moving_left(),
    {
        self.velocity.x < self.scrolling_velocity
    }

    pub fn moving_right(&self) -> (r: bool)
        ensures
            r == self.spec_moving_right(),
    {
        self.velocity.x >= self.scrolling_velocity
    }

    fn on_floor(&self) -> (r: bool)
        ensures
            r == self.spec_on_floor(),
    {
        self.position.y == sat_add(self.floor, -DOG_HEIGHT)
    }

    fn too_close(&self) -> (r: bool)
        ensures
            r == self.spec_too_close(),
    {
        self.moving_left() && self.on_floor() && self.position.x < self.distance_min
    }

    fn too_far(&self) -> (r: bool)
        ensures
            r == self.spec_too_far(),
    {
        self.moving_right() && self.on_floor() && self.position.x > self.distance_max
    }
}

/// `ctx` after `n` ticks with frame ceiling `frame_count`.
pub open spec fn spec_updates(ctx: DogContext, frame_count: u8, n: nat) -> DogContext
    decreases n,
{
    if n == 0 {
        ctx
    } else {
        spec_updates(ctx, frame_count, (n - 1) as nat).spec_update(frame_count)
    }
}

/// Law (frame wraparound): starting a fresh animation, the frame counter
/// counts one step per tick up to the frame ceiling, and the tick after
/// reaching the ceiling loops it back to 0.
pub proof fn lemma_frame_wraparound(ctx: DogContext, frame_count: u8, n: nat)
    requires
        ctx.frame == 0,
        1 <= n <= frame_count + 1,
    ensures
        spec_updates(ctx, frame_count, n).frame == if n <= frame_count {
            n
        } else {
            0nat
        },
    decreases n,
{
    if n > 1 {
        lemma_frame_wraparound(ctx, frame_count, (n - 1) as nat);
    } else {
        assert(spec_updates(ctx, frame_count, 0) == ctx);
    }
}

/// Law (floor clamp): after any tick, the vertical position never passes
/// through the current floor: the Companion never rests below the surface
/// it stands on.
pub proof fn lemma_floor_clamp(ctx: DogContext, frame_count: u8)
    ensures
        ctx.spec_update(frame_count).position.y <= ctx.spec_update(frame_count).spec_resting(),
        ctx.spec_update(frame_count).position.y <= ctx.spec_update(frame_count).floor,
{
}

} // verus!
