use vstd::prelude::*;
use super::DogState;
use super::fleeing::Fleeing;
use super::jumping_return::JumpingReturn;
use super::returning_to_flee::ReturningToFlee;
use super::returning_worried::ReturningWorried;
use super::running::Running;
use super::FleeEndState;
use crate::dog::context::{FLEE_RETURN_THRESHOLD, JUMP_SPEED, RUNNING_FRAMES};
use crate::event_queue::EventPublisher;
use crate::game;

verus! {

/// Ground patrol back toward home.
#[derive(Clone, Copy, PartialEq, Eq, Structural, Debug)]
pub struct Returning;

impl DogState<Returning> {
    /// `Jump` (a mark hit): takes off with the jump velocity.
    pub fn jump(self) -> (r: DogState<JumpingReturn>)
        ensures
            r.context == self.context.spec_set_vertical_velocity(JUMP_SPEED),
    {
        DogState { context: self.context.set_vertical_velocity(JUMP_SPEED), _state: JumpingReturn }
    }

    /// `Worry` (the Runner was hit): stops fleeing and stays close.
    pub fn worry(self) -> (r: DogState<ReturningWorried>)
        ensures
            r.context == self.context.spec_worry(),
    {
        DogState { context: self.context.worry(), _state: ReturningWorried }
    }

    /// `Flee` (the run started): same direction decision as from `Running`.
    pub fn flee(self) -> (r: FleeEndState)
        ensures
            ({
                let next = self.context.spec_flee();
                if self.context.position.x > FLEE_RETURN_THRESHOLD {
                    r matches FleeEndState::ReturningToFlee(s) && s.context == next
                } else {
                    r matches FleeEndState::Fleeing(s) && s.context == next
                }
            }),
    {
        let far = self.context.position.x > FLEE_RETURN_THRESHOLD;
        let context = self.context.flee();
        if far {
            FleeEndState::ReturningToFlee(DogState { context, _state: ReturningToFlee })
        } else {
            FleeEndState::Fleeing(DogState { context, _state: Fleeing })
        }
    }

    /// `TurnAround` (came too close): patrols away again, with a fresh
    /// animation.
    pub fn turn_around(self) -> (r: DogState<Running>)
        ensures
            r.context == self.context.spec_turn_around().spec_reset_frame(),
    {
        DogState { context: self.context.turn_around().reset_frame(), _state: Running }
    }

    /// One tick of the ground animation and physics.
    pub fn update(self, events: &mut EventPublisher) -> (r: DogState<Returning>)
        ensures
            r.context == self.context.spec_update(RUNNING_FRAMES),
            final(events)@ == old(events)@ + self.context.spec_update_events(RUNNING_FRAMES),
    {
        DogState { context: self.context.update(RUNNING_FRAMES, events), _state: Returning }
    }

    /// `LandOn`: the platform below becomes the floor.
    pub fn land_on(self, platform: i16) -> (r: DogState<Returning>)
        ensures
            r.context == self.context.spec_set_floor(platform),
    {
        DogState { context: self.context.set_floor(platform), _state: Returning }
    }

    /// `OffPlatform`: the floor drops back to the ground.
    pub fn drop_from_platform(self) -> (r: DogState<Returning>)
        ensures
            r.context == self.context.spec_set_floor(game::HEIGHT),
    {
        DogState { context: self.context.set_floor(game::HEIGHT), _state: Returning }
    }
}

} // verus!
