//! The Companion's state machine: an autonomous patrol / flee loop with
//! worried, jumping and returning variants, driven by commands derived from
//! game events. An event with no rule for the current state leaves the
//! state unchanged.

use vstd::prelude::*;
use crate::game;
use crate::event_queue::EventPublisher;
use crate::text;
use super::context::{DogContext, FLEE_RETURN_THRESHOLD, JUMPING_FRAMES, JUMP_SPEED, RUNNING_FRAMES};
use super::states::{DogState, FleeEndState};
use super::states::fleeing::Fleeing;
use super::states::jumping::Jumping;
use super::states::jumping_flee::JumpingFlee;
use super::states::jumping_flee_return::JumpingFleeReturn;
use super::states::jumping_return::JumpingReturn;
use super::states::jumping_worried::JumpingWorried;
use super::states::jumping_worried_return::JumpingWorriedReturn;
use super::states::returning::Returning;
use super::states::returning_to_flee::ReturningToFlee;
use super::states::returning_worried::ReturningWorried;
use super::states::running::Running;
use super::states::running_worried::RunningWorried;
use vstd::string::StringExecFns;

verus! {

/// Prefix of the ground animation's frame names.
pub const RUN_FRAME_PREFIX: &'static str = "rr_";

/// Prefix of the airborne animation's frame names.
pub const JUMP_FRAME_PREFIX: &'static str = "l_";

/// A command handed to the Companion's machine, derived from a game event.
#[derive(Clone, Copy, PartialEq, Eq, Structural, Debug)]
pub enum Event {
    Flee,
    Jump,
    LandOn(i16),
    LandOnGround,
    OffPlatform,
    TurnAround,
    Update,
    Worry,
}

/// The Companion's machine: exactly one active state at a time.
#[derive(Clone, Copy, Debug)]
#[verifier::ext_equal]
pub enum DogStateMachine {
    Fleeing(DogState<Fleeing>),
    Jumping(DogState<Jumping>),
    JumpingFlee(DogState<JumpingFlee>),
    JumpingFleeReturn(DogState<JumpingFleeReturn>),
    JumpingReturn(DogState<JumpingReturn>),
    JumpingWorried(DogState<JumpingWorried>),
    JumpingWorriedReturn(DogState<JumpingWorriedReturn>),
    Returning(DogState<Returning>),
    ReturningToFlee(DogState<ReturningToFlee>),
    ReturningWorried(DogState<ReturningWorried>),
    Running(DogState<Running>),
    RunningWorried(DogState<RunningWorried>),
}

/// The full sprite-sheet frame name of animation frame `index` of the
/// animation starting with `base`: the prefix, the index left-padded with
/// zeros to three digits, and the `.png` suffix.
pub open spec fn spec_dog_frame_key(base: Seq<char>, index: int) -> Seq<char> {
    base + text::spec_padded_decimal(index) + ".png"@
}

impl DogStateMachine {
    /// The context of the active state.
    pub open spec fn spec_context(self) -> DogContext {
        match self {
            DogStateMachine::Fleeing(s) => s.context,
            DogStateMachine::Jumping(s) => s.context,
            DogStateMachine::JumpingFlee(s) => s.context,
            DogStateMachine::JumpingFleeReturn(s) => s.context,
            DogStateMachine::JumpingReturn(s) => s.context,
            DogStateMachine::JumpingWorried(s) => s.context,
            DogStateMachine::JumpingWorriedReturn(s) => s.context,
            DogStateMachine::Returning(s) => s.context,
            DogStateMachine::ReturningToFlee(s) => s.context,
            DogStateMachine::ReturningWorried(s) => s.context,
            DogStateMachine::Running(s) => s.context,
            DogStateMachine::RunningWorried(s) => s.context,
        }
    }

    /// The frame ceiling of the active state's animation.
    pub open spec fn spec_frame_count(self) -> u8 {
        match self {
            DogStateMachine::Fleeing(_) => RUNNING_FRAMES,
            DogStateMachine::Returning(_) => RUNNING_FRAMES,
            DogStateMachine::ReturningToFlee(_) => RUNNING_FRAMES,
            DogStateMachine::ReturningWorried(_) => RUNNING_FRAMES,
            DogStateMachine::Running(_) => RUNNING_FRAMES,
            DogStateMachine::RunningWorried(_) => RUNNING_FRAMES,
            DogStateMachine::Jumping(_) => JUMPING_FRAMES,
            DogStateMachine::JumpingFlee(_) => JUMPING_FRAMES,
            DogStateMachine::JumpingFleeReturn(_) => JUMPING_FRAMES,
            DogStateMachine::JumpingReturn(_) => JUMPING_FRAMES,
            DogStateMachine::JumpingWorried(_) => JUMPING_FRAMES,
            DogStateMachine::JumpingWorriedReturn(_) => JUMPING_FRAMES,
        }
    }

    /// The frame-name prefix of the active state's animation.
    pub open spec fn spec_frame_base(self) -> Seq<char> {
        match self {
            DogStateMachine::Fleeing(_) => RUN_FRAME_PREFIX@,
            DogStateMachine::Returning(_) => RUN_FRAME_PREFIX@,
            DogStateMachine::ReturningToFlee(_) => RUN_FRAME_PREFIX@,
            DogStateMachine::ReturningWorried(_) => RUN_FRAME_PREFIX@,
            DogStateMachine::Running(_) => RUN_FRAME_PREFIX@,
            DogStateMachine::RunningWorried(_) => RUN_FRAME_PREFIX@,
            DogStateMachine::Jumping(_) => JUMP_FRAME_PREFIX@,
            DogStateMachine::JumpingFlee(_) => JUMP_FRAME_PREFIX@,
            DogStateMachine::JumpingFleeReturn(_) => JUMP_FRAME_PREFIX@,
            DogStateMachine::JumpingReturn(_) => JUMP_FRAME_PREFIX@,
            DogStateMachine::JumpingWorried(_) => JUMP_FRAME_PREFIX@,
            DogStateMachine::JumpingWorriedReturn(_) => JUMP_FRAME_PREFIX@,
        }
    }

    /// The name of the active state.
    pub open spec fn spec_state_name(self) -> Seq<char> {
        match self {
            DogStateMachine::Fleeing(_) => "Fleeing"@,
            DogStateMachine::Jumping(_) => "Jumping"@,
            DogStateMachine::JumpingFlee(_) => "JumpingFlee"@,
            DogStateMachine::JumpingFleeReturn(_) => "JumpingFleeReturn"@,
            DogStateMachine::JumpingReturn(_) => "JumpingReturn"@,
            DogStateMachine::JumpingWorried(_) => "JumpingWorried"@,
            DogStateMachine::JumpingWorriedReturn(_) => "JumpingWorriedReturn"@,
            DogStateMachine::Returning(_) => "Returning"@,
            DogStateMachine::ReturningToFlee(_) => "ReturningToFlee"@,
            DogStateMachine::ReturningWorried(_) => "ReturningWorried"@,
            DogStateMachine::Running(_) => "Running"@,
            DogStateMachine::RunningWorried(_) => "RunningWorried"@,
        }
    }

    /// The frame name the Companion currently shows.
    pub open spec fn spec_frame_name(self) -> Seq<char> {
        spec_dog_frame_key(self.spec_frame_base(), self.spec_context().frame as int / 3)
    }

    /// The frame counter never leaves the range shared by both animations.
    pub open spec fn wf(self) -> bool {
        self.spec_context().frame <= RUNNING_FRAMES
    }

    /// The events one `Update` tick publishes.
    pub open spec fn spec_update_events(self) -> Seq<crate::event_queue::GameEvent> {
        self.spec_context().spec_update_events(self.spec_frame_count())
    }

    /// The complete transition relation of the Companion's machine. Commands
    /// without a rule for the current state are no-ops.
    pub open spec fn spec_transition(self, event: Event) -> DogStateMachine {
        match (self, event) {
            (DogStateMachine::Fleeing(s), Event::Update) => DogStateMachine::Fleeing(
                DogState { context: s.context.spec_update(RUNNING_FRAMES), _state: Fleeing },
            ),
            (DogStateMachine::Returning(s), Event::Update) => DogStateMachine::Returning(
                DogState { context: s.context.spec_update(RUNNING_FRAMES), _state: Returning },
            ),
            (DogStateMachine::ReturningToFlee(s), Event::Update) => DogStateMachine::ReturningToFlee(
                DogState { context: s.context.spec_update(RUNNING_FRAMES), _state: ReturningToFlee },
            ),
            (DogStateMachine::ReturningWorried(s), Event::Update) => DogStateMachine::ReturningWorried(
                DogState { context: s.context.spec_update(RUNNING_FRAMES), _state: ReturningWorried },
            ),
            (DogStateMachine::Running(s), Event::Update) => DogStateMachine::Running(
                DogState { context: s.context.spec_update(RUNNING_FRAMES), _state: Running },
            ),
            (DogStateMachine::RunningWorried(s), Event::Update) => DogStateMachine::RunningWorried(
                DogState { context: s.context.spec_update(RUNNING_FRAMES), _state: RunningWorried },
            ),
            (DogStateMachine::Jumping(s), Event::Update) => DogStateMachine::Jumping(
                DogState { context: s.context.spec_update(JUMPING_FRAMES), _state: Jumping },
            ),
            (DogStateMachine::JumpingFlee(s), Event::Update) => DogStateMachine::JumpingFlee(
                DogState { context: s.context.spec_update(JUMPING_FRAMES), _state: JumpingFlee },
            ),
            (DogStateMachine::JumpingFleeReturn(s), Event::Update) => DogStateMachine::JumpingFleeReturn(
                DogState { context: s.context.spec_update(JUMPING_FRAMES), _state: JumpingFleeReturn },
            ),
            (DogStateMachine::JumpingReturn(s), Event::Update) => DogStateMachine::JumpingReturn(
                DogState { context: s.context.spec_update(JUMPING_FRAMES), _state: JumpingReturn },
            ),
            (DogStateMachine::JumpingWorried(s), Event::Update) => DogStateMachine::JumpingWorried(
                DogState { context: s.context.spec_update(JUMPING_FRAMES), _state: JumpingWorried },
            ),
            (DogStateMachine::JumpingWorriedReturn(s), Event::Update) => DogStateMachine::JumpingWorriedReturn(
                DogState { context: s.context.spec_update(JUMPING_FRAMES), _state: JumpingWorriedReturn },
            ),
            (DogStateMachine::Running(s), Event::Jump) => DogStateMachine::Jumping(
                DogState { context: s.context.spec_set_vertical_velocity(JUMP_SPEED).spec_reset_frame(), _state: Jumping },
            ),
            (DogStateMachine::RunningWorried(s), Event::Jump) => DogStateMachine::JumpingWorried(
                DogState { context: s.context.spec_set_vertical_velocity(JUMP_SPEED), _state: JumpingWorried },
            ),
            (DogStateMachine::Fleeing(s), Event::Jump) => DogStateMachine::JumpingFlee(
                DogState { context: s.context.spec_set_vertical_velocity(JUMP_SPEED), _state: JumpingFlee },
            ),
            (DogStateMachine::Returning(s), Event::Jump) => DogStateMachine::JumpingReturn(
                DogState { context: s.context.spec_set_vertical_velocity(JUMP_SPEED), _state: JumpingReturn },
            ),
            (DogStateMachine::ReturningToFlee(s), Event::Jump) => DogStateMachine::JumpingFleeReturn(
                DogState { context: s.context.spec_set_vertical_velocity(JUMP_SPEED), _state: JumpingFleeReturn },
            ),
            (DogStateMachine::ReturningWorried(s), Event::Jump) => DogStateMachine::JumpingWorriedReturn(
                DogState { context: s.context.spec_set_vertical_velocity(JUMP_SPEED), _state: JumpingWorriedReturn },
            ),
            (DogStateMachine::Running(s), Event::Worry) => DogStateMachine::RunningWorried(
                DogState { context: s.context.spec_worry(), _state: RunningWorried },
            ),
            (DogStateMachine::Fleeing(s), Event::Worry) => DogStateMachine::ReturningWorried(
                DogState { context: s.context.spec_worry(), _state: ReturningWorried },
            ),
            (DogStateMachine::Returning(s), Event::Worry) => DogStateMachine::ReturningWorried(
                DogState { context: s.context.spec_worry(), _state: ReturningWorried },
            ),
            (DogStateMachine::ReturningToFlee(s), Event::Worry) => DogStateMachine::ReturningWorried(
                DogState { context: s.context.spec_worry(), _state: ReturningWorried },
            ),
            (DogStateMachine::Running(s), Event::Flee) => {
                let next = s.context.spec_flee();
                if s.context.position.x > FLEE_RETURN_THRESHOLD {
                    DogStateMachine::ReturningToFlee(DogState { context: next, _state: ReturningToFlee })
                } else {
                    DogStateMachine::Fleeing(DogState { context: next, _state: Fleeing })
                }
            },
            (DogStateMachine::Returning(s), Event::Flee) => {
                let next = s.context.spec_flee();
                if s.context.position.x > FLEE_RETURN_THRESHOLD {
                    DogStateMachine::ReturningToFlee(DogState { context: next, _state: ReturningToFlee })
                } else {
                    DogStateMachine::Fleeing(DogState { context: next, _state: Fleeing })
                }
            },
            (DogStateMachine::Running(s), Event::TurnAround) => DogStateMachine::Returning(
                DogState { context: s.context.spec_turn_around(), _state: Returning },
            ),
            (DogStateMachine::RunningWorried(s), Event::TurnAround) => DogStateMachine::ReturningWorried(
                DogState { context: s.context.spec_turn_around(), _state: ReturningWorried },
            ),
            (DogStateMachine::Fleeing(s), Event::TurnAround) => DogStateMachine::Returning(
                DogState { context: s.context.spec_turn_around(), _state: Returning },
            ),
            (DogStateMachine::Returning(s), Event::TurnAround) => DogStateMachine::Running(
                DogState { context: s.context.spec_turn_around().spec_reset_frame(), _state: Running },
            ),
            (DogStateMachine::ReturningToFlee(s), Event::TurnAround) => DogStateMachine::Fleeing(
                DogState { context: s.context.spec_turn_around(), _state: Fleeing },
            ),
            (DogStateMachine::ReturningWorried(s), Event::TurnAround) => DogStateMachine::RunningWorried(
                DogState { context: s.context.spec_turn_around().spec_reset_frame(), _state: RunningWorried },
            ),
            (DogStateMachine::Fleeing(s), Event::LandOn(platform)) => DogStateMachine::Fleeing(
                DogState { context: s.context.spec_set_floor(platform), _state: Fleeing },
            ),
            (DogStateMachine::Returning(s), Event::LandOn(platform)) => DogStateMachine::Returning(
                DogState { context: s.context.spec_set_floor(platform), _state: Returning },
            ),
            (DogStateMachine::ReturningToFlee(s), Event::LandOn(platform)) => DogStateMachine::ReturningToFlee(
                DogState { context: s.context.spec_set_floor(platform), _state: ReturningToFlee },
            ),
            (DogStateMachine::ReturningWorried(s), Event::LandOn(platform)) => DogStateMachine::ReturningWorried(
                DogState { context: s.context.spec_set_floor(platform), _state: ReturningWorried },
            ),
            (DogStateMachine::Running(s), Event::LandOn(platform)) => DogStateMachine::Running(
                DogState { context: s.context.spec_set_floor(platform), _state: Running },
            ),
            (DogStateMachine::RunningWorried(s), Event::LandOn(platform)) => DogStateMachine::RunningWorried(
                DogState { context: s.context.spec_set_floor(platform), _state: RunningWorried },
            ),
            (DogStateMachine::Jumping(s), Event::LandOn(platform)) => DogStateMachine::Running(
                DogState { context: s.context.spec_reset_frame().spec_set_floor(platform), _state: Running },
            ),
            (DogStateMachine::JumpingFlee(s), Event::LandOn(platform)) => DogStateMachine::Fleeing(
                DogState { context: s.context.spec_reset_frame().spec_set_floor(platform), _state: Fleeing },
            ),
            (DogStateMachine::JumpingFleeReturn(s), Event::LandOn(platform)) => DogStateMachine::ReturningToFlee(
                DogState { context: s.context.spec_reset_frame().spec_set_floor(platform), _state: ReturningToFlee },
            ),
            (DogStateMachine::JumpingReturn(s), Event::LandOn(platform)) => DogStateMachine::Returning(
                DogState { context: s.context.spec_reset_frame().spec_set_floor(platform), _state: Returning },
            ),
            (DogStateMachine::JumpingWorried(s), Event::LandOn(platform)) => DogStateMachine::RunningWorried(
                DogState { context: s.context.spec_reset_frame().spec_set_floor(platform), _state: RunningWorried },
            ),
            (DogStateMachine::JumpingWorriedReturn(s), Event::LandOn(platform)) => DogStateMachine::ReturningWorried(
                DogState { context: s.context.spec_reset_frame().spec_set_floor(platform), _state: ReturningWorried },
            ),
            (DogStateMachine::Jumping(s), Event::LandOnGround) => DogStateMachine::Running(
                DogState { context: s.context.spec_reset_frame(), _state: Running },
            ),
            (DogStateMachine::JumpingFlee(s), Event::LandOnGround) => DogStateMachine::Fleeing(
                DogState { context: s.context.spec_reset_frame(), _state: Fleeing },
            ),
            (DogStateMachine::JumpingFleeReturn(s), Event::LandOnGround) => DogStateMachine::ReturningToFlee(
                DogState { context: s.context.spec_reset_frame(), _state: ReturningToFlee },
            ),
            (DogStateMachine::JumpingReturn(s), Event::LandOnGround) => DogStateMachine::Returning(
                DogState { context: s.context.spec_reset_frame(), _state: Returning },
            ),
            (DogStateMachine::JumpingWorried(s), Event::LandOnGround) => DogStateMachine::RunningWorried(
                DogState { context: s.context.spec_reset_frame(), _state: RunningWorried },
            ),
            (DogStateMachine::JumpingWorriedReturn(s), Event::LandOnGround) => DogStateMachine::ReturningWorried(
                DogState { context: s.context.spec_reset_frame(), _state: ReturningWorried },
            ),
            (DogStateMachine::Fleeing(s), Event::OffPlatform) => DogStateMachine::Fleeing(
                DogState { context: s.context.spec_set_floor(game::HEIGHT), _state: Fleeing },
            ),
            (DogStateMachine::Jumping(s), Event::OffPlatform) => DogStateMachine::Jumping(
                DogState { context: s.context.spec_set_floor(game::HEIGHT), _state: Jumping },
            ),
            (DogStateMachine::JumpingFlee(s), Event::OffPlatform) => DogStateMachine::JumpingFlee(
                DogState { context: s.context.spec_set_floor(game::HEIGHT), _state: JumpingFlee },
            ),
            (DogStateMachine::JumpingFleeReturn(s), Event::OffPlatform) => DogStateMachine::JumpingFleeReturn(
                DogState { context: s.context.spec_set_floor(game::HEIGHT), _state: JumpingFleeReturn },
            ),
            (DogStateMachine::JumpingReturn(s), Event::OffPlatform) => DogStateMachine::JumpingReturn(
                DogState { context: s.context.spec_set_floor(game::HEIGHT), _state: JumpingReturn },
            ),
            (DogStateMachine::JumpingWorried(s), Event::OffPlatform) => DogStateMachine::JumpingWorried(
                DogState { context: s.context.spec_set_floor(game::HEIGHT), _state: JumpingWorried },
            ),
            (DogStateMachine::JumpingWorriedReturn(s), Event::OffPlatform) => DogStateMachine::JumpingWorriedReturn(
                DogState { context: s.context.spec_set_floor(game::HEIGHT), _state: JumpingWorriedReturn },
            ),
            (DogStateMachine::Returning(s), Event::OffPlatform) => DogStateMachine::Returning(
                DogState { context: s.context.spec_set_floor(game::HEIGHT), _state: Returning },
            ),
            (DogStateMachine::ReturningToFlee(s), Event::OffPlatform) => DogStateMachine::ReturningToFlee(
                DogState { context: s.context.spec_set_floor(game::HEIGHT), _state: ReturningToFlee },
            ),
            (DogStateMachine::ReturningWorried(s), Event::OffPlatform) => DogStateMachine::ReturningWorried(
                DogState { context: s.context.spec_set_floor(game::HEIGHT), _state: ReturningWorried },
            ),
            (DogStateMachine::Running(s), Event::OffPlatform) => DogStateMachine::Running(
                DogState { context: s.context.spec_set_floor(game::HEIGHT), _state: Running },
            ),
            (DogStateMachine::RunningWorried(s), Event::OffPlatform) => DogStateMachine::RunningWorried(
                DogState { context: s.context.spec_set_floor(game::HEIGHT), _state: RunningWorried },
            ),
            _ => self,
        }
    }

    pub fn context(&self) -> (r: &DogContext)
        ensures
            *r == self.spec_context(),
    {
        match self {
            DogStateMachine::Fleeing(s) => s.context(),
            DogStateMachine::Jumping(s) => s.context(),
            DogStateMachine::JumpingFlee(s) => s.context(),
            DogStateMachine::JumpingFleeReturn(s) => s.context(),
            DogStateMachine::JumpingReturn(s) => s.context(),
            DogStateMachine::JumpingWorried(s) => s.context(),
            DogStateMachine::JumpingWorriedReturn(s) => s.context(),
            DogStateMachine::Returning(s) => s.context(),
            DogStateMachine::ReturningToFlee(s) => s.context(),
            DogStateMachine::ReturningWorried(s) => s.context(),
            DogStateMachine::Running(s) => s.context(),
            DogStateMachine::RunningWorried(s) => s.context(),
        }
    }

    pub fn state_name(&self) -> (r: &'static str)
        ensures
            r@ == self.spec_state_name(),
    {
        match self {
            DogStateMachine::Fleeing(_) => "Fleeing",
            DogStateMachine::Jumping(_) => "Jumping",
            DogStateMachine::JumpingFlee(_) => "JumpingFlee",
            DogStateMachine::JumpingFleeReturn(_) => "JumpingFleeReturn",
            DogStateMachine::JumpingReturn(_) => "JumpingReturn",
            DogStateMachine::JumpingWorried(_) => "JumpingWorried",
            DogStateMachine::JumpingWorriedReturn(_) => "JumpingWorriedReturn",
            DogStateMachine::Returning(_) => "Returning",
            DogStateMachine::ReturningToFlee(_) => "ReturningToFlee",
            DogStateMachine::ReturningWorried(_) => "ReturningWorried",
            DogStateMachine::Running(_) => "Running",
            DogStateMachine::RunningWorried(_) => "RunningWorried",
        }
    }

    /// The full frame name of the sprite the Companion currently shows.
    pub fn frame_name(&self) -> (r: String)
        ensures
            r@ == self.spec_frame_name(),
    {
        let base = match self {
            DogStateMachine::Fleeing(_) => RUN_FRAME_PREFIX,
            DogStateMachine::Returning(_) => RUN_FRAME_PREFIX,
            DogStateMachine::ReturningToFlee(_) => RUN_FRAME_PREFIX,
            DogStateMachine::ReturningWorried(_) => RUN_FRAME_PREFIX,
            DogStateMachine::Running(_) => RUN_FRAME_PREFIX,
            DogStateMachine::RunningWorried(_) => RUN_FRAME_PREFIX,
            DogStateMachine::Jumping(_) => JUMP_FRAME_PREFIX,
            DogStateMachine::JumpingFlee(_) => JUMP_FRAME_PREFIX,
            DogStateMachine::JumpingFleeReturn(_) => JUMP_FRAME_PREFIX,
            DogStateMachine::JumpingReturn(_) => JUMP_FRAME_PREFIX,
            DogStateMachine::JumpingWorried(_) => JUMP_FRAME_PREFIX,
            DogStateMachine::JumpingWorriedReturn(_) => JUMP_FRAME_PREFIX,
        };
        let index = self.context().frame as u32 / 3;
        proof {
            reveal_strlit(".png");
        }
        let s = String::from_str(base).concat(
            text::padded_decimal_string(index).as_str(),
        ).concat(".png");
        proof {
            assert(s@ =~= self.spec_frame_name());
        }
        s
    }

    /// Applies one command to the machine. `Update` carries event
    /// publishing with it and goes through `update` instead.
    pub fn transition(self, event: Event) -> (r: DogStateMachine)
        requires
            !(event matches Event::Update),
        ensures
            r == self.spec_transition(event),
    {
        let r = match (self, event) {
            (DogStateMachine::Running(state), Event::Jump) => DogStateMachine::Jumping(state.jump()),
            (DogStateMachine::RunningWorried(state), Event::Jump) => DogStateMachine::JumpingWorried(state.jump()),
            (DogStateMachine::Fleeing(state), Event::Jump) => DogStateMachine::JumpingFlee(state.jump()),
            (DogStateMachine::Returning(state), Event::Jump) => DogStateMachine::JumpingReturn(state.jump()),
            (DogStateMachine::ReturningToFlee(state), Event::Jump) => DogStateMachine::JumpingFleeReturn(state.jump()),
            (DogStateMachine::ReturningWorried(state), Event::Jump) => DogStateMachine::JumpingWorriedReturn(state.jump()),
            (DogStateMachine::Running(state), Event::Worry) => DogStateMachine::RunningWorried(state.worry()),
            (DogStateMachine::Fleeing(state), Event::Worry) => DogStateMachine::ReturningWorried(state.worry()),
            (DogStateMachine::Returning(state), Event::Worry) => DogStateMachine::ReturningWorried(state.worry()),
            (DogStateMachine::ReturningToFlee(state), Event::Worry) => DogStateMachine::ReturningWorried(state.worry()),
            (DogStateMachine::Running(state), Event::Flee) => match state.flee() {
                FleeEndState::Fleeing(next) => DogStateMachine::Fleeing(next),
                FleeEndState::ReturningToFlee(next) => DogStateMachine::ReturningToFlee(next),
            },
            (DogStateMachine::Returning(state), Event::Flee) => match state.flee() {
                FleeEndState::Fleeing(next) => DogStateMachine::Fleeing(next),
                FleeEndState::ReturningToFlee(next) => DogStateMachine::ReturningToFlee(next),
            },
            (DogStateMachine::Running(state), Event::TurnAround) => DogStateMachine::Returning(state.turn_around()),
            (DogStateMachine::RunningWorried(state), Event::TurnAround) => DogStateMachine::ReturningWorried(state.turn_around()),
            (DogStateMachine::Fleeing(state), Event::TurnAround) => DogStateMachine::Returning(state.turn_around()),
            (DogStateMachine::Returning(state), Event::TurnAround) => DogStateMachine::Running(state.turn_around()),
            (DogStateMachine::ReturningToFlee(state), Event::TurnAround) => DogStateMachine::Fleeing(state.turn_around()),
            (DogStateMachine::ReturningWorried(state), Event::TurnAround) => DogStateMachine::RunningWorried(state.turn_around()),
            (DogStateMachine::Fleeing(state), Event::LandOn(platform)) => DogStateMachine::Fleeing(state.land_on(platform)),
            (DogStateMachine::Returning(state), Event::LandOn(platform)) => DogStateMachine::Returning(state.land_on(platform)),
            (DogStateMachine::ReturningToFlee(state), Event::LandOn(platform)) => DogStateMachine::ReturningToFlee(state.land_on(platform)),
            (DogStateMachine::ReturningWorried(state), Event::LandOn(platform)) => DogStateMachine::ReturningWorried(state.land_on(platform)),
            (DogStateMachine::Running(state), Event::LandOn(platform)) => DogStateMachine::Running(state.land_on(platform)),
            (DogStateMachine::RunningWorried(state), Event::LandOn(platform)) => DogStateMachine::RunningWorried(state.land_on(platform)),
            (DogStateMachine::Jumping(state), Event::LandOn(platform)) => DogStateMachine::Running(state.land_on(platform)),
            (DogStateMachine::JumpingFlee(state), Event::LandOn(platform)) => DogStateMachine::Fleeing(state.land_on(platform)),
            (DogStateMachine::JumpingFleeReturn(state), Event::LandOn(platform)) => DogStateMachine::ReturningToFlee(state.land_on(platform)),
            (DogStateMachine::JumpingReturn(state), Event::LandOn(platform)) => DogStateMachine::Returning(state.land_on(platform)),
            (DogStateMachine::JumpingWorried(state), Event::LandOn(platform)) => DogStateMachine::RunningWorried(state.land_on(platform)),
            (DogStateMachine::JumpingWorriedReturn(state), Event::LandOn(platform)) => DogStateMachine::ReturningWorried(state.land_on(platform)),
            (DogStateMachine::Jumping(state), Event::LandOnGround) => DogStateMachine::Running(state.land()),
            (DogStateMachine::JumpingFlee(state), Event::LandOnGround) => DogStateMachine::Fleeing(state.land()),
            (DogStateMachine::JumpingFleeReturn(state), Event::LandOnGround) => DogStateMachine::ReturningToFlee(state.land()),
            (DogStateMachine::JumpingReturn(state), Event::LandOnGround) => DogStateMachine::Returning(state.land()),
            (DogStateMachine::JumpingWorried(state), Event::LandOnGround) => DogStateMachine::RunningWorried(state.land()),
            (DogStateMachine::JumpingWorriedReturn(state), Event::LandOnGround) => DogStateMachine::ReturningWorried(state.land()),
            (DogStateMachine::Fleeing(state), Event::OffPlatform) => DogStateMachine::Fleeing(state.drop_from_platform()),
            (DogStateMachine::Jumping(state), Event::OffPlatform) => DogStateMachine::Jumping(state.drop_from_platform()),
            (DogStateMachine::JumpingFlee(state), Event::OffPlatform) => DogStateMachine::JumpingFlee(state.drop_from_platform()),
            (DogStateMachine::JumpingFleeReturn(state), Event::OffPlatform) => DogStateMachine::JumpingFleeReturn(state.drop_from_platform()),
            (DogStateMachine::JumpingReturn(state), Event::OffPlatform) => DogStateMachine::JumpingReturn(state.drop_from_platform()),
            (DogStateMachine::JumpingWorried(state), Event::OffPlatform) => DogStateMachine::JumpingWorried(state.drop_from_platform()),
            (DogStateMachine::JumpingWorriedReturn(state), Event::OffPlatform) => DogStateMachine::JumpingWorriedReturn(state.drop_from_platform()),
            (DogStateMachine::Returning(state), Event::OffPlatform) => DogStateMachine::Returning(state.drop_from_platform()),
            (DogStateMachine::ReturningToFlee(state), Event::OffPlatform) => DogStateMachine::ReturningToFlee(state.drop_from_platform()),
            (DogStateMachine::ReturningWorried(state), Event::OffPlatform) => DogStateMachine::ReturningWorried(state.drop_from_platform()),
            (DogStateMachine::Running(state), Event::OffPlatform) => DogStateMachine::Running(state.drop_from_platform()),
            (DogStateMachine::RunningWorried(state), Event::OffPlatform) => DogStateMachine::RunningWorried(state.drop_from_platform()),
            (machine, _) => machine,
        };
        proof {
            assert(r =~= self.spec_transition(event));
        }
        r
    }

    /// One tick of physics and animation, publishing this tick's landing
    /// and patrol events.
    pub fn update(self, events: &mut EventPublisher) -> (r: DogStateMachine)
        ensures
            r == self.spec_transition(Event::Update),
            final(events)@ == old(events)@ + self.spec_update_events(),
    {
        let r = match self {
            DogStateMachine::Fleeing(state) => DogStateMachine::Fleeing(state.update(events)),
            DogStateMachine::Returning(state) => DogStateMachine::Returning(state.update(events)),
            DogStateMachine::ReturningToFlee(state) => DogStateMachine::ReturningToFlee(state.update(events)),
            DogStateMachine::ReturningWorried(state) => DogStateMachine::ReturningWorried(state.update(events)),
            DogStateMachine::Running(state) => DogStateMachine::Running(state.update(events)),
            DogStateMachine::RunningWorried(state) => DogStateMachine::RunningWorried(state.update(events)),
            DogStateMachine::Jumping(state) => DogStateMachine::Jumping(state.update(events)),
            DogStateMachine::JumpingFlee(state) => DogStateMachine::JumpingFlee(state.update(events)),
            DogStateMachine::JumpingFleeReturn(state) => DogStateMachine::JumpingFleeReturn(state.update(events)),
            DogStateMachine::JumpingReturn(state) => DogStateMachine::JumpingReturn(state.update(events)),
            DogStateMachine::JumpingWorried(state) => DogStateMachine::JumpingWorried(state.update(events)),
            DogStateMachine::JumpingWorriedReturn(state) => DogStateMachine::JumpingWorriedReturn(state.update(events)),
        };
        proof {
            assert(r =~= self.spec_transition(Event::Update));
        }
        r
    }
}

/// Law: every transition keeps the frame counter within the frame range of
/// both of the Companion's animations.
pub proof fn lemma_transition_preserves_wf(machine: DogStateMachine, event: Event)
    requires
        machine.wf(),
    ensures
        machine.spec_transition(event).wf(),
{
}

} // verus!
