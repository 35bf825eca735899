use vstd::prelude::*;
use super::DogState;
use super::fleeing::Fleeing;
use super::jumping::Jumping;
use super::returning::Returning;
use super::returning_to_flee::ReturningToFlee;
use super::running_worried::RunningWorried;
use super::FleeEndState;
use crate::dog::context::{DogContext, FLEE_RETURN_THRESHOLD, JUMP_SPEED, RUNNING_FRAMES};
use crate::dog::state_machine::{spec_dog_frame_key, RUN_FRAME_PREFIX};
use crate::text;
use vstd::string::StringExecFns;
use crate::event_queue::EventPublisher;
use crate::game;

verus! {

/// Carefree ground patrol away from home.
#[derive(Clone, Copy, PartialEq, Eq, Structural, Debug)]
pub struct Running;

impl DogState<Running> {
    /// The initial state: patrolling on the ground.
    pub fn new() -> (r: DogState<Running>)
        ensures
            r.context == DogContext::spec_initial(),
    {
        DogState { context: DogContext::new(), _state: Running }
    }

    /// The frame name of the ground animation at the current frame.
    pub fn frame_name(&self) -> (r: String)
        ensures
            r@ == spec_dog_frame_key(RUN_FRAME_PREFIX@, self.context.frame as int / 3),
    {
        proof {
            reveal_strlit(".png");
        }
        let s = String::from_str(RUN_FRAME_PREFIX).concat(
            text::padded_decimal_string(self.context.frame as u32 / 3).as_str(),
        ).concat(".png");
        proof {
            assert(s@ =~= spec_dog_frame_key(RUN_FRAME_PREFIX@, self.context.frame as int / 3));
        }
        s
    }

    /// `Jump` (a mark hit): takes off with the jump velocity.
    pub fn jump(self) -> (r: DogState<Jumping>)
        ensures
            r.context == self.context.spec_set_vertical_velocity(JUMP_SPEED).spec_reset_frame(),
    {
        DogState { context: self.context.set_vertical_velocity(JUMP_SPEED).reset_frame(), _state: Jumping }
    }

    /// `Worry` (the Runner was hit): stops fleeing and stays close.
    pub fn worry(self) -> (r: DogState<RunningWorried>)
        ensures
            r.context == self.context.spec_worry(),
    {
        DogState { context: self.context.worry(), _state: RunningWorried }
    }

    /// `Flee` (the run started): the course starts scrolling; far from the
    /// screen edge the Companion first runs back before settling into its
    /// fleeing trot.
    pub fn flee(self) -> (r: FleeEndState)
        ensures
            ({
                let next = self.context.spec_flee();
                if self.context.position.x > FLEE_RETURN_THRESHOLD {
                    r matches FleeEndState::ReturningToFlee(s) && s.context == next
                } else {
                    r matches FleeEndState::Fleeing(s) && s.context == next
                }
            }),
    {
        let far = self.context.position.x > FLEE_RETURN_THRESHOLD;
        let context = self.context.flee();
        if far {
            FleeEndState::ReturningToFlee(DogState { context, _state: ReturningToFlee })
        } else {
            FleeEndState::Fleeing(DogState { context, _state: Fleeing })
        }
    }

    /// `TurnAround` (strayed too far): patrols back toward home.
    pub fn turn_around(self) -> (r: DogState<Returning>)
        ensures
            r.context == self.context.spec_turn_around(),
    {
        DogState { context: self.context.turn_around(), _state: Returning }
    }

    /// One tick of the ground animation and physics.
    pub fn update(self, events: &mut EventPublisher) -> (r: DogState<Running>)
        ensures
            r.context == self.context.spec_update(RUNNING_FRAMES),
            final(events)@ == old(events)@ + self.context.spec_update_events(RUNNING_FRAMES),
    {
        DogState { context: self.context.update(RUNNING_FRAMES, events), _state: Running }
    }

    /// `LandOn`: the platform below becomes the floor.
    pub fn land_on(self, platform: i16) -> (r: DogState<Running>)
        ensures
            r.context == self.context.spec_set_floor(platform),
    {
        DogState { context: self.context.set_floor(platform), _state: Running }
    }

    /// `OffPlatform`: the floor drops back to the ground.
    pub fn drop_from_platform(self) -> (r: DogState<Running>)
        ensures
            r.context == self.context.spec_set_floor(game::HEIGHT),
    {
        DogState { context: self.context.set_floor(game::HEIGHT), _state: Running }
    }
}

} // verus!
