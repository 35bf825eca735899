use vstd::prelude::*;
use super::DogState;
use super::jumping_worried_return::JumpingWorriedReturn;
use super::running_worried::RunningWorried;
use crate::dog::context::{JUMP_SPEED, RUNNING_FRAMES};
use crate::event_queue::EventPublisher;
use crate::game;

verus! {

/// Worried ground patrol back toward the Runner.
#[derive(Clone, Copy, PartialEq, Eq, Structural, Debug)]
pub struct ReturningWorried;

impl DogState<ReturningWorried> {
    /// `Jump` (a mark hit): takes off with the jump velocity.
    pub fn jump(self) -> (r: DogState<JumpingWorriedReturn>)
        ensures
            r.context == self.context.spec_set_vertical_velocity(JUMP_SPEED),
    {
        DogState { context: self.context.set_vertical_velocity(JUMP_SPEED), _state: JumpingWorriedReturn }
    }

    /// `TurnAround` (came too close): patrols away again, with a fresh
    /// animation.
    pub fn turn_around(self) -> (r: DogState<RunningWorried>)
        ensures
            r.context == self.context.spec_turn_around().spec_reset_frame(),
    {
        DogState { context: self.context.turn_around().reset_frame(), _state: RunningWorried }
    }

    /// One tick of the ground animation and physics.
    pub fn update(self, events: &mut EventPublisher) -> (r: DogState<ReturningWorried>)
        ensures
            r.context == self.context.spec_update(RUNNING_FRAMES),
            final(events)@ == old(events)@ + self.context.spec_update_events(RUNNING_FRAMES),
    {
        DogState { context: self.context.update(RUNNING_FRAMES, events), _state: ReturningWorried }
    }

    /// `LandOn`: the platform below becomes the floor.
    pub fn land_on(self, platform: i16) -> (r: DogState<ReturningWorried>)
        ensures
            r.context == self.context.spec_set_floor(platform),
    {
        DogState { context: self.context.set_floor(platform), _state: ReturningWorried }
    }

    /// `OffPlatform`: the floor drops back to the ground.
    pub fn drop_from_platform(self) -> (r: DogState<ReturningWorried>)
        ensures
            r.context == self.context.spec_set_floor(game::HEIGHT),
    {
        DogState { context: self.context.set_floor(game::HEIGHT), _state: ReturningWorried }
    }
}

} // verus!
