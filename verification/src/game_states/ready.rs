//! The Ready state: both characters idle while the game waits for the
//! "move" input that starts the run.

use vstd::prelude::*;
use crate::event_queue::GameEvent;
use crate::game_states::{KeyState, WalkTheDogState};
use crate::red_hat_boy::state_machine as boy_machine;
use crate::dog::state_machine as dog_machine;
use crate::walk::Walk;
use super::walking::Walking;

verus! {

#[derive(Clone, Copy, PartialEq, Eq, Structural, Debug)]
pub struct Ready;

/// One Ready tick: both characters advance one tick of physics (the
/// Companion's tick may publish events, which stay queued until the run
/// starts). When the "move" key is pressed (`started`), the run begins:
/// the Runner is commanded to run right and `GameStarted` is published.
pub open spec fn spec_ready_tick(pre: Walk, post: Walk, move_pressed: bool, started: bool) -> bool {
    let boy1 = pre.boy.state_machine.spec_transition(boy_machine::Event::Update);
    let dog1 = pre.dog.state_machine.spec_transition(dog_machine::Event::Update);
    let queue1 = pre.events@ + pre.dog.state_machine.spec_update_events();
    &&& started == move_pressed
    &&& post.boy.sprite_sheet == pre.boy.sprite_sheet
    &&& post.dog.sprite_sheet == pre.dog.sprite_sheet
    &&& post.dog.state_machine == dog1
    &&& if started {
        post.boy.state_machine == boy1.spec_transition(boy_machine::Event::Run) && post.events@
            == queue1.push(GameEvent::GameStarted)
    } else {
        post.boy.state_machine == boy1 && post.events@ == queue1
    }
    &&& post.obstacles == pre.obstacles
    &&& post.backgrounds == pre.backgrounds
    &&& post.segment_factory == pre.segment_factory
    &&& post.timeline == pre.timeline
}

/// Outcome of one Ready tick.
pub enum ReadyEndState {
    Complete(WalkTheDogState<Walking>),
    Continue(WalkTheDogState<Ready>),
}

impl WalkTheDogState<Ready> {
    pub fn new(walk: Walk) -> (r: WalkTheDogState<Ready>)
        ensures
            r.walk == walk,
    {
        WalkTheDogState { walk, _state: Ready }
    }

    /// One Ready tick; on the "move" input the run starts.
    pub fn update(self, keystate: &KeyState) -> (r: ReadyEndState)
        requires
            self.walk.wf(),
        ensures
            keystate.arrow_right ==> (r matches ReadyEndState::Complete(next) && spec_ready_tick(
                self.walk,
                next.walk,
                true,
                true,
            ) && next.walk.wf()),
            !keystate.arrow_right ==> (r matches ReadyEndState::Continue(next) && spec_ready_tick(
                self.walk,
                next.walk,
                false,
                false,
            ) && next.walk.wf()),
    {
        let mut next = self;
        next.walk.boy.update();
        next.walk.dog.update(&mut next.walk.events);
        proof {
            boy_machine::lemma_transition_preserves_wf(
                self.walk.boy.state_machine,
                boy_machine::Event::Update,
            );
            dog_machine::lemma_transition_preserves_wf(
                self.walk.dog.state_machine,
                dog_machine::Event::Update,
            );
        }

        if keystate.arrow_right {
            ReadyEndState::Complete(next.start_running())
        } else {
            ReadyEndState::Continue(next)
        }
    }

    fn run_right(&mut self)
        ensures
            final(self).walk.boy.state_machine == old(self).walk.boy.state_machine.spec_transition(
                boy_machine::Event::Run,
            ),
            final(self).walk.boy.sprite_sheet == old(self).walk.boy.sprite_sheet,
            final(self).walk.dog == old(self).walk.dog,
            final(self).walk.events == old(self).walk.events,
            final(self).walk.obstacles == old(self).walk.obstacles,
            final(self).walk.backgrounds == old(self).walk.backgrounds,
            final(self).walk.segment_factory == old(self).walk.segment_factory,
            final(self).walk.timeline == old(self).walk.timeline,
    {
        self.walk.boy.run_right();
    }

    /// Commands the Runner to run right, announces the start of the run,
    /// and hands the walk to the Walking state.
    fn start_running(self) -> (r: WalkTheDogState<Walking>)
        requires
            self.walk.wf(),
        ensures
            r.walk.boy.state_machine == self.walk.boy.state_machine.spec_transition(
                boy_machine::Event::Run,
            ),
            r.walk.boy.sprite_sheet == self.walk.boy.sprite_sheet,
            r.walk.wf(),
            r.walk.dog == self.walk.dog,
            r.walk.events@ == self.walk.events@.push(GameEvent::GameStarted),
            r.walk.obstacles == self.walk.obstacles,
            r.walk.backgrounds == self.walk.backgrounds,
            r.walk.segment_factory == self.walk.segment_factory,
            r.walk.timeline == self.walk.timeline,
    {
        let mut next = self;
        next.run_right();
        next.walk.events.publish(GameEvent::GameStarted);
        proof {
            boy_machine::lemma_transition_preserves_wf(
                self.walk.boy.state_machine,
                boy_machine::Event::Run,
            );
        }

        WalkTheDogState { walk: next.walk, _state: Walking }
    }
}

} // verus!
