use vstd::prelude::*;
use super::DogState;
use super::running::Running;
use crate::dog::context::{JUMPING_FRAMES};
use crate::dog::state_machine::{spec_dog_frame_key, JUMP_FRAME_PREFIX};
use crate::text;
use vstd::string::StringExecFns;
use crate::event_queue::EventPublisher;
use crate::game;

verus! {

/// Airborne over a jump, landing back into `Running`.
#[derive(Clone, Copy, PartialEq, Eq, Structural, Debug)]
pub struct Jumping;

impl DogState<Jumping> {
    /// The frame name of the airborne animation at the current frame.
    pub fn frame_name(&self) -> (r: String)
        ensures
            r@ == spec_dog_frame_key(JUMP_FRAME_PREFIX@, self.context.frame as int / 3),
    {
        proof {
            reveal_strlit(".png");
        }
        let s = String::from_str(JUMP_FRAME_PREFIX).concat(
            text::padded_decimal_string(self.context.frame as u32 / 3).as_str(),
        ).concat(".png");
        proof {
            assert(s@ =~= spec_dog_frame_key(JUMP_FRAME_PREFIX@, self.context.frame as int / 3));
        }
        s
    }

    /// One tick of the airborne animation and physics.
    pub fn update(self, events: &mut EventPublisher) -> (r: DogState<Jumping>)
        ensures
            r.context == self.context.spec_update(JUMPING_FRAMES),
            final(events)@ == old(events)@ + self.context.spec_update_events(JUMPING_FRAMES),
    {
        DogState { context: self.context.update(JUMPING_FRAMES, events), _state: Jumping }
    }

    /// `LandOn`: lands on a platform top; the Running patrol resumes with a fresh animation.
    pub fn land_on(self, platform: i16) -> (r: DogState<Running>)
        ensures
            r.context == self.context.spec_reset_frame().spec_set_floor(platform),
    {
        DogState { context: self.context.reset_frame().set_floor(platform), _state: Running }
    }

    /// `LandOnGround`: reaches the current floor; the Running patrol resumes with a fresh animation.
    pub fn land(self) -> (r: DogState<Running>)
        ensures
            r.context == self.context.spec_reset_frame(),
    {
        DogState { context: self.context.reset_frame(), _state: Running }
    }

    /// `OffPlatform`: the floor drops back to the ground mid-air.
    pub fn drop_from_platform(self) -> (r: DogState<Jumping>)
        ensures
            r.context == self.context.spec_set_floor(game::HEIGHT),
    {
        DogState { context: self.context.set_floor(game::HEIGHT), _state: Jumping }
    }
}

} // verus!
