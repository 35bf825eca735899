//! The Companion's typestate values: one zero-sized tag per named state,
//! each paired with the shared context. Every worried / jumping / returning
//! combination is its own explicit state, so floor, direction and frame set
//! are unambiguous per combination.

pub mod fleeing;
pub mod jumping;
pub mod jumping_flee;
pub mod jumping_flee_return;
pub mod jumping_return;
pub mod jumping_worried;
pub mod jumping_worried_return;
pub mod returning;
pub mod returning_to_flee;
pub mod returning_worried;
pub mod running;
pub mod running_worried;

use vstd::prelude::*;
use super::context::DogContext;
use fleeing::Fleeing;
use returning_to_flee::ReturningToFlee;

verus! {

/// A state of the Companion's machine: the shared context plus a zero-sized
/// state tag.
#[derive(Clone, Copy, Debug)]
#[verifier::ext_equal]
pub struct DogState<S> {
    pub context: DogContext,
    pub _state: S,
}

impl<S> DogState<S> {
    pub fn context(&self) -> (r: &DogContext)
        ensures
            *r == self.context,
    {
        &self.context
    }
}

/// Outcome of the `Flee` command from a ground patrol state: far from the
/// screen edge the Companion first runs back, otherwise it settles into the
/// fleeing trot directly.
pub enum FleeEndState {
    Fleeing(DogState<Fleeing>),
    ReturningToFlee(DogState<ReturningToFlee>),
}

} // verus!
