use vstd::prelude::*;
use super::DogState;
use super::fleeing::Fleeing;
use super::jumping_flee_return::JumpingFleeReturn;
use super::returning_worried::ReturningWorried;
use crate::dog::context::{JUMP_SPEED, RUNNING_FRAMES};
use crate::event_queue::EventPublisher;
use crate::game;

verus! {

/// Running back toward the screen before settling into fleeing.
#[derive(Clone, Copy, PartialEq, Eq, Structural, Debug)]
pub struct ReturningToFlee;

impl DogState<ReturningToFlee> {
    /// `Jump` (a mark hit): takes off with the jump velocity.
    pub fn jump(self) -> (r: DogState<JumpingFleeReturn>)
        ensures
            r.context == self.context.spec_set_vertical_velocity(JUMP_SPEED),
    {
        DogState { context: self.context.set_vertical_velocity(JUMP_SPEED), _state: JumpingFleeReturn }
    }

    /// `Worry` (the Runner was hit): stops fleeing and stays close.
    pub fn worry(self) -> (r: DogState<ReturningWorried>)
        ensures
            r.context == self.context.spec_worry(),
    {
        DogState { context: self.context.worry(), _state: ReturningWorried }
    }

    /// `TurnAround` (came close enough): settles into the fleeing trot.
    pub fn turn_around(self) -> (r: DogState<Fleeing>)
        ensures
            r.context == self.context.spec_turn_around(),
    {
        DogState { context: self.context.turn_around(), _state: Fleeing }
    }

    /// One tick of the ground animation and physics.
    pub fn update(self, events: &mut EventPublisher) -> (r: DogState<ReturningToFlee>)
        ensures
            r.context == self.context.spec_update(RUNNING_FRAMES),
            final(events)@ == old(events)@ + self.context.spec_update_events(RUNNING_FRAMES),
    {
        DogState { context: self.context.update(RUNNING_FRAMES, events), _state: ReturningToFlee }
    }

    /// `LandOn`: the platform below becomes the floor.
    pub fn land_on(self, platform: i16) -> (r: DogState<ReturningToFlee>)
        ensures
            r.context == self.context.spec_set_floor(platform),
    {
        DogState { context: self.context.set_floor(platform), _state: ReturningToFlee }
    }

    /// `OffPlatform`: the floor drops back to the ground.
    pub fn drop_from_platform(self) -> (r: DogState<ReturningToFlee>)
        ensures
            r.context == self.context.spec_set_floor(game::HEIGHT),
    {
        DogState { context: self.context.set_floor(game::HEIGHT), _state: ReturningToFlee }
    }
}

} // verus!
