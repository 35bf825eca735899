use vstd::prelude::*;
use super::DogState;
use super::jumping_worried::JumpingWorried;
use super::returning_worried::ReturningWorried;
use crate::dog::context::{JUMP_SPEED, RUNNING_FRAMES};
use crate::event_queue::EventPublisher;
use crate::game;

verus! {

/// Ground patrol close to the knocked-out Runner.
#[derive(Clone, Copy, PartialEq, Eq, Structural, Debug)]
pub struct RunningWorried;

impl DogState<RunningWorried> {
    /// `Jump` (a mark hit): takes off with the jump velocity.
    pub fn jump(self) -> (r: DogState<JumpingWorried>)
        ensures
            r.context == self.context.spec_set_vertical_velocity(JUMP_SPEED),
    {
        DogState { context: self.context.set_vertical_velocity(JUMP_SPEED), _state: JumpingWorried }
    }

    /// `TurnAround` (strayed too far): returns toward the Runner.
    pub fn turn_around(self) -> (r: DogState<ReturningWorried>)
        ensures
            r.context == self.context.spec_turn_around(),
    {
        DogState { context: self.context.turn_around(), _state: ReturningWorried }
    }

    /// One tick of the ground animation and physics.
    pub fn update(self, events: &mut EventPublisher) -> (r: DogState<RunningWorried>)
        ensures
            r.context == self.context.spec_update(RUNNING_FRAMES),
            final(events)@ == old(events)@ + self.context.spec_update_events(RUNNING_FRAMES),
    {
        DogState { context: self.context.update(RUNNING_FRAMES, events), _state: RunningWorried }
    }

    /// `LandOn`: the platform below becomes the floor.
    pub fn land_on(self, platform: i16) -> (r: DogState<RunningWorried>)
        ensures
            r.context == self.context.spec_set_floor(platform),
    {
        DogState { context: self.context.set_floor(platform), _state: RunningWorried }
    }

    /// `OffPlatform`: the floor drops back to the ground.
    pub fn drop_from_platform(self) -> (r: DogState<RunningWorried>)
        ensures
            r.context == self.context.spec_set_floor(game::HEIGHT),
    {
        DogState { context: self.context.set_floor(game::HEIGHT), _state: RunningWorried }
    }
}

} // verus!
