//! The top-level gameplay state machine: Ready (waiting for the first
//! move), Walking (full simulation), GameOver (frozen except the
//! Companion's idle loop), and back to a fresh Ready on "new game".

pub mod game_over;
pub mod ready;
pub mod walking;

use vstd::prelude::*;
use crate::walk::Walk;
use game_over::GameOver;
use ready::{Ready, ReadyEndState};
use walking::{Walking, WalkingEndState};
use game_over::GameOverEndState;

verus! {

/// The keys the game polls once per tick.
#[derive(Clone, Copy, PartialEq, Eq, Structural, Debug)]
pub struct KeyState {
    /// The "move" key that starts a run.
    pub arrow_right: bool,
    /// The "slide" key.
    pub arrow_down: bool,
    /// The "jump" key.
    pub space: bool,
}

/// One gameplay state: the run it owns plus a zero-sized state tag.
pub struct WalkTheDogState<T> {
    pub walk: Walk,
    pub _state: T,
}

/// The gameplay machine: exactly one active state at a time.
pub enum WalkTheDogStateMachine {
    GameOver(WalkTheDogState<GameOver>),
    Ready(WalkTheDogState<Ready>),
    Walking(WalkTheDogState<Walking>),
}

impl WalkTheDogStateMachine {
    pub open spec fn spec_walk(self) -> Walk {
        match self {
            WalkTheDogStateMachine::GameOver(state) => state.walk,
            WalkTheDogStateMachine::Ready(state) => state.walk,
            WalkTheDogStateMachine::Walking(state) => state.walk,
        }
    }

    pub open spec fn wf(self) -> bool {
        self.spec_walk().wf()
    }

    /// One tick of the gameplay machine: what the active state makes of
    /// the polled input and, in GameOver, of the "new game" signal.
    pub open spec fn spec_tick(
        pre: WalkTheDogStateMachine,
        post: WalkTheDogStateMachine,
        keystate: KeyState,
        new_game_pressed: bool,
    ) -> bool {
        &&& pre matches WalkTheDogStateMachine::Ready(state) ==> ({
            ||| (post matches WalkTheDogStateMachine::Ready(next) && ready::spec_ready_tick(
                state.walk,
                next.walk,
                keystate.arrow_right,
                false,
            ))
            ||| (post matches WalkTheDogStateMachine::Walking(next) && ready::spec_ready_tick(
                state.walk,
                next.walk,
                keystate.arrow_right,
                true,
            ))
        })
        &&& pre matches WalkTheDogStateMachine::Walking(state) ==> ({
            ||| (post matches WalkTheDogStateMachine::Walking(next)
                && walking::spec_walking_tick(
                state.walk,
                next.walk,
                keystate.space,
                keystate.arrow_down,
            ) && !(next.walk.boy.state_machine
                matches crate::red_hat_boy::state_machine::RedHatBoyStateMachine::KnockedOut(_)))
            ||| (post matches WalkTheDogStateMachine::GameOver(next)
                && walking::spec_walking_tick(
                state.walk,
                next.walk,
                keystate.space,
                keystate.arrow_down,
            ) && next.walk.boy.state_machine
                matches crate::red_hat_boy::state_machine::RedHatBoyStateMachine::KnockedOut(_))
        })
        &&& pre matches WalkTheDogStateMachine::GameOver(state) ==> ({
            ||| (new_game_pressed && (post matches WalkTheDogStateMachine::Ready(next)
                && crate::walk::spec_is_reset(state.walk, next.walk)))
            ||| (!new_game_pressed && (post matches WalkTheDogStateMachine::GameOver(next)
                && crate::walk::spec_companion_tick(state.walk, next.walk)))
        })
    }

    /// One tick: the active state handles the polled input (and, in
    /// GameOver, the "new game" signal) and decides the next state.
    pub fn update(self, keystate: &KeyState, new_game_pressed: bool) -> (r:
        WalkTheDogStateMachine)
        requires
            self.wf(),
        ensures
            r.wf(),
            WalkTheDogStateMachine::spec_tick(self, r, *keystate, new_game_pressed),
    {
        match self {
            WalkTheDogStateMachine::GameOver(state) => match state.update(new_game_pressed) {
                GameOverEndState::Complete(next) => WalkTheDogStateMachine::Ready(next),
                GameOverEndState::Continue(next) => WalkTheDogStateMachine::GameOver(next),
            },
            WalkTheDogStateMachine::Ready(state) => match state.update(keystate) {
                ReadyEndState::Complete(next) => WalkTheDogStateMachine::Walking(next),
                ReadyEndState::Continue(next) => WalkTheDogStateMachine::Ready(next),
            },
            WalkTheDogStateMachine::Walking(state) => match state.update(keystate) {
                WalkingEndState::Complete(next) => WalkTheDogStateMachine::GameOver(next),
                WalkingEndState::Continue(next) => WalkTheDogStateMachine::Walking(next),
            },
        }
    }
}

/// The whole game: the machine, once a run has been set up.
pub struct WalkTheDog {
    pub machine: Option<WalkTheDogStateMachine>,
}

impl WalkTheDog {
    pub fn new() -> (r: WalkTheDog)
        ensures
            r.machine is None,
    {
        WalkTheDog { machine: None }
    }

    /// Hands a fresh run to the game.
    pub fn start(&mut self, walk: Walk)
        requires
            walk.wf(),
        ensures
            final(self).machine matches Some(m) && m matches WalkTheDogStateMachine::Ready(s)
                && s.walk == walk,
    {
        self.machine = Some(
            WalkTheDogStateMachine::Ready(WalkTheDogState { walk, _state: Ready }),
        );
    }

    /// One tick of the whole game; before a run is set up this does
    /// nothing.
    pub fn update(&mut self, keystate: &KeyState, new_game_pressed: bool)
        requires
            old(self).machine matches Some(m) ==> m.wf(),
        ensures
            old(self).machine is None ==> final(self).machine is None,
            old(self).machine matches Some(m) ==> (final(self).machine matches Some(next)
                && next.wf() && WalkTheDogStateMachine::spec_tick(
                m,
                next,
                *keystate,
                new_game_pressed,
            )),
    {
        let machine = self.machine.take();
        match machine {
            Some(machine) => {
                self.machine = Some(machine.update(keystate, new_game_pressed));
            },
            None => {},
        }
    }
}

} // verus!
