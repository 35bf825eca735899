use vstd::prelude::*;
use super::DogState;
use super::returning::Returning;
use crate::dog::context::{JUMPING_FRAMES};
use crate::event_queue::EventPublisher;
use crate::game;

verus! {

/// Airborne over a jump, landing back into `Returning`.
#[derive(Clone, Copy, PartialEq, Eq, Structural, Debug)]
pub struct JumpingReturn;

impl DogState<JumpingReturn> {
    /// One tick of the airborne animation and physics.
    pub fn update(self, events: &mut EventPublisher) -> (r: DogState<JumpingReturn>)
        ensures
            r.context == self.context.spec_update(JUMPING_FRAMES),
            final(events)@ == old(events)@ + self.context.spec_update_events(JUMPING_FRAMES),
    {
        DogState { context: self.context.update(JUMPING_FRAMES, events), _state: JumpingReturn }
    }

    /// `LandOn`: lands on a platform top; the Returning patrol resumes with a fresh animation.
    pub fn land_on(self, platform: i16) -> (r: DogState<Returning>)
        ensures
            r.context == self.context.spec_reset_frame().spec_set_floor(platform),
    {
        DogState { context: self.context.reset_frame().set_floor(platform), _state: Returning }
    }

    /// `LandOnGround`: reaches the current floor; the Returning patrol resumes with a fresh animation.
    pub fn land(self) -> (r: DogState<Returning>)
        ensures
            r.context == self.context.spec_reset_frame(),
    {
        DogState { context: self.context.reset_frame(), _state: Returning }
    }

    /// `OffPlatform`: the floor drops back to the ground mid-air.
    pub fn drop_from_platform(self) -> (r: DogState<JumpingReturn>)
        ensures
            r.context == self.context.spec_set_floor(game::HEIGHT),
    {
        DogState { context: self.context.set_floor(game::HEIGHT), _state: JumpingReturn }
    }
}

} // verus!
