//! The GameOver state: the simulation is frozen except for the Companion's
//! idle loop, while the game polls for the "new game" signal.

use vstd::prelude::*;
use crate::game_states::WalkTheDogState;
use crate::walk::{spec_companion_tick, spec_is_reset, Walk};
use super::ready::Ready;

verus! {

#[derive(Clone, Copy, PartialEq, Eq, Structural, Debug)]
pub struct GameOver;

/// Outcome of one GameOver tick.
pub enum GameOverEndState {
    Complete(WalkTheDogState<Ready>),
    Continue(WalkTheDogState<GameOver>),
}

impl WalkTheDogState<GameOver> {
    /// One GameOver tick. While the "new game" signal is off, events keep
    /// draining and only the Companion keeps moving; on the signal the
    /// whole run is rebuilt and the game returns to Ready.
    pub fn update(self, new_game_pressed: bool) -> (r: GameOverEndState)
        requires
            self.walk.wf(),
        ensures
            new_game_pressed ==> (r matches GameOverEndState::Complete(next) && spec_is_reset(
                self.walk,
                next.walk,
            ) && next.walk.wf()),
            !new_game_pressed ==> (r matches GameOverEndState::Continue(next)
                && spec_companion_tick(self.walk, next.walk) && next.walk.wf()),
    {
        if new_game_pressed {
            GameOverEndState::Complete(self.new_game())
        } else {
            let mut next = self;
            next.walk.update();
            GameOverEndState::Continue(next)
        }
    }

    /// The full reset: a fresh Ready state whose characters, obstacles and
    /// id counter all restart.
    fn new_game(self) -> (r: WalkTheDogState<Ready>)
        requires
            self.walk.wf(),
        ensures
            spec_is_reset(self.walk, r.walk),
            r.walk.wf(),
    {
        WalkTheDogState { walk: Walk::reset(self.walk), _state: Ready }
    }
}

} // verus!
