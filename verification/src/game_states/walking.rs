//! The Walking state: the full simulation. Each tick maps input to Runner
//! commands, advances physics, scrolls the course, retires and moves
//! obstacles, resolves collisions, drains the event queue, extends the
//! course when the horizon runs low, and watches for the knock-out that
//! ends the run.

use vstd::prelude::*;
use crate::dog::Dog;
use crate::game_states::{KeyState, WalkTheDogState};
use crate::red_hat_boy::state_machine as boy_machine;
use crate::red_hat_boy::RedHatBoy;
use crate::rect::sat;
use crate::segments::{spec_is_segment, SEGMENT_KINDS};
use crate::walk::{
    spec_all_moved, spec_check_fold, spec_drain, spec_kept, spec_navigate_all, spec_rightmost,
    spec_scroll_backgrounds, Walk, OBSTACLE_BUFFER,
};
use super::game_over::GameOver;

verus! {

#[derive(Clone, Copy, PartialEq, Eq, Structural, Debug)]
pub struct Walking;

/// Once the known course shrinks below this horizon, a new segment is
/// generated.
pub const TIMELINE_MINIMUM: i16 = 1000;

/// One Walking tick, stage by stage:
/// input commands and one tick of physics for the Runner; the course
/// scrolls by the opposite of the Runner's speed (backgrounds wrap
/// end-to-end); obstacles that have scrolled fully off-screen are retired;
/// the remaining obstacles move and test the Runner; the queue is drained,
/// the Companion advances and the obstacles inspect it; finally the course
/// is extended once the timeline drops below the horizon, or the timeline
/// scrolls along.
pub open spec fn spec_walking_tick(pre: Walk, post: Walk, jump: bool, slide: bool) -> bool {
    exists|moved: Seq<crate::obstacles::Obstacle>, kind: int|
        #[trigger] spec_walking_tick_with(pre, post, jump, slide, moved, kind)
}

/// One Walking tick whose post-retirement, post-scroll obstacle list is
/// `moved`, and whose freshly generated segment (when the horizon ran low)
/// is catalog segment `kind` (see `spec_walking_tick`).
pub open spec fn spec_walking_tick_with(
    pre: Walk,
    post: Walk,
    jump: bool,
    slide: bool,
    moved: Seq<crate::obstacles::Obstacle>,
    kind: int,
) -> bool {
    let commanded = if jump {
        pre.boy.state_machine.spec_transition(boy_machine::Event::Jump)
    } else {
        pre.boy.state_machine
    };
    let commanded2 = if slide {
        commanded.spec_transition(boy_machine::Event::Slide)
    } else {
        commanded
    };
    let advanced = commanded2.spec_transition(boy_machine::Event::Update);
    let boy_advanced = RedHatBoy { state_machine: advanced, ..pre.boy };
    let velocity = sat(-advanced.spec_context().velocity.x) as i16;
    let scrolled = spec_scroll_backgrounds(pre.backgrounds@[0], pre.backgrounds@[1], velocity);
    let kept = spec_kept(pre.obstacles@, pre.obstacles@);
    spec_all_moved(kept, moved, velocity) && {
            let checked = spec_check_fold(moved, boy_advanced);
            let boy_checked = RedHatBoy { state_machine: checked.0, ..pre.boy };
            let queued = pre.events@ + checked.1;
            let drained = spec_drain(pre.dog.state_machine, moved, queued, pre.dog.sprite_sheet);
            let dog_machine = drained.0.spec_transition(crate::dog::state_machine::Event::Update);
            let dog_advanced = Dog {
                sprite_sheet: pre.dog.sprite_sheet,
                state_machine: dog_machine,
            };
            &&& post.boy == boy_checked
            &&& post.dog == dog_advanced
            &&& post.backgrounds@.len() == 2
            &&& post.backgrounds@[0] == scrolled.0
            &&& post.backgrounds@[1] == scrolled.1
            &&& post.events@ == drained.0.spec_update_events() + spec_navigate_all(
                drained.1,
                dog_advanced,
            )
            &&& if pre.timeline < TIMELINE_MINIMUM {
                let fresh = post.obstacles@.skip(drained.1.len() as int);
                &&& post.obstacles@ == drained.1 + fresh
                &&& post.timeline as int == spec_rightmost(fresh)
                &&& post.segment_factory.id == pre.segment_factory.spec_next_id()
                &&& post.segment_factory.stone_width == pre.segment_factory.stone_width
                &&& post.segment_factory.stone_height == pre.segment_factory.stone_height
                &&& 0 <= kind < SEGMENT_KINDS
                &&& spec_is_segment(
                    fresh,
                    kind,
                    post.segment_factory.id,
                    pre.segment_factory.stone_width,
                    pre.segment_factory.stone_height,
                    sat(pre.timeline + OBSTACLE_BUFFER) as i16,
                )
            } else {
                &&& post.obstacles@ == drained.1
                &&& post.timeline as int == sat(pre.timeline + velocity)
                &&& post.segment_factory == pre.segment_factory
            }
        }
}

/// Outcome of one Walking tick.
pub enum WalkingEndState {
    Complete(WalkTheDogState<GameOver>),
    Continue(WalkTheDogState<Walking>),
}

impl WalkTheDogState<Walking> {
    /// One Walking tick; the run ends once the Runner is knocked out.
    #[verifier::rlimit(100)]
    pub fn update(self, keystate: &KeyState) -> (r: WalkingEndState)
        requires
            self.walk.wf(),
        ensures
            ({
                ||| (r matches WalkingEndState::Continue(next) && spec_walking_tick(
                    self.walk,
                    next.walk,
                    keystate.space,
                    keystate.arrow_down,
                ) && next.walk.wf() && !(next.walk.boy.state_machine
                    matches boy_machine::RedHatBoyStateMachine::KnockedOut(_)))
                ||| (r matches WalkingEndState::Complete(next) && spec_walking_tick(
                    self.walk,
                    next.walk,
                    keystate.space,
                    keystate.arrow_down,
                ) && next.walk.wf() && next.walk.boy.state_machine
                    matches boy_machine::RedHatBoyStateMachine::KnockedOut(_))
            }),
    {
        let ghost pre = self.walk;
        let mut next = self;
        if keystate.space {
            next.walk.boy.jump();
        }
        if keystate.arrow_down {
            next.walk.boy.slide();
        }
        next.walk.boy.update();
        proof {
            if keystate.space {
                boy_machine::lemma_transition_preserves_wf(
                    pre.boy.state_machine,
                    boy_machine::Event::Jump,
                );
            }
            if keystate.arrow_down {
                boy_machine::lemma_transition_preserves_wf(
                    pre.boy.state_machine.spec_transition(boy_machine::Event::Jump),
                    boy_machine::Event::Slide,
                );
                boy_machine::lemma_transition_preserves_wf(
                    pre.boy.state_machine,
                    boy_machine::Event::Slide,
                );
            }
            boy_machine::lemma_transition_preserves_wf(
                next.walk.boy.state_machine,
                boy_machine::Event::Update,
            );
        }
        let walking_speed = next.walk.velocity();

        next.walk.scroll_background(walking_speed);
        next.walk.drop_surpassed_obstacles();
        next.walk.move_obstacles(walking_speed);
        let ghost moved = next.walk.obstacles@;
        let ghost boy_at_check = next.walk.boy;
        next.walk.check_intersections();
        let ghost walk_at_update = next.walk;
        next.walk.update();

        if next.walk.timeline < TIMELINE_MINIMUM {
            next.walk.generate_next_segment();
        } else {
            next.walk.timeline = crate::rect::sat_add(next.walk.timeline, walking_speed);
        }

        proof {
            let jump = keystate.space;
            let slide = keystate.arrow_down;
            let commanded = if jump {
                pre.boy.state_machine.spec_transition(boy_machine::Event::Jump)
            } else {
                pre.boy.state_machine
            };
            let commanded2 = if slide {
                commanded.spec_transition(boy_machine::Event::Slide)
            } else {
                commanded
            };
            let advanced = commanded2.spec_transition(boy_machine::Event::Update);
            let boy_advanced = RedHatBoy { state_machine: advanced, ..pre.boy };
            assert(boy_at_check =~= boy_advanced);
            let velocity = sat(-advanced.spec_context().velocity.x) as i16;
            assert(walking_speed == velocity);
            let kept = spec_kept(pre.obstacles@, pre.obstacles@);
            assert(spec_all_moved(kept, moved, velocity));
            let checked = spec_check_fold(moved, boy_advanced);
            assert(walk_at_update.boy =~= RedHatBoy { state_machine: checked.0, ..pre.boy });
            assert(walk_at_update.obstacles@ == moved);
            assert(walk_at_update.events@ == pre.events@ + checked.1);
            let queued = pre.events@ + checked.1;
            let drained = spec_drain(pre.dog.state_machine, moved, queued, pre.dog.sprite_sheet);
            let dog_machine = drained.0.spec_transition(crate::dog::state_machine::Event::Update);
            assert(next.walk.dog =~= Dog {
                sprite_sheet: pre.dog.sprite_sheet,
                state_machine: dog_machine,
            });
            assert(next.walk.boy == walk_at_update.boy);
            assert(walk_at_update.dog.state_machine == pre.dog.state_machine);
            assert(walk_at_update.dog.sprite_sheet == pre.dog.sprite_sheet);
            assert(drained == spec_drain(
                walk_at_update.dog.state_machine,
                walk_at_update.obstacles@,
                walk_at_update.events@,
                walk_at_update.dog.sprite_sheet,
            ));
            let dog_advanced = Dog { sprite_sheet: pre.dog.sprite_sheet, state_machine: dog_machine };
            assert(next.walk.events@ == drained.0.spec_update_events() + spec_navigate_all(
                drained.1,
                dog_advanced,
            ));
            assert(next.walk.backgrounds@[0] == spec_scroll_backgrounds(
                pre.backgrounds@[0],
                pre.backgrounds@[1],
                velocity,
            ).0);
            assert(next.walk.backgrounds@[1] == spec_scroll_backgrounds(
                pre.backgrounds@[0],
                pre.backgrounds@[1],
                velocity,
            ).1);
            let kind: int = if pre.timeline < TIMELINE_MINIMUM {
                let fresh = next.walk.obstacles@.skip(drained.1.len() as int);
                assert(next.walk.obstacles@ == drained.1 + fresh);
                assert(next.walk.timeline as int == spec_rightmost(fresh));
                assert(next.walk.segment_factory.id == pre.segment_factory.spec_next_id());
                let picked = choose|kind: int|
                    0 <= kind < SEGMENT_KINDS && #[trigger] spec_is_segment(
                        fresh,
                        kind,
                        next.walk.segment_factory.id,
                        pre.segment_factory.stone_width,
                        pre.segment_factory.stone_height,
                        sat(pre.timeline + OBSTACLE_BUFFER) as i16,
                    );
                picked
            } else {
                assert(next.walk.obstacles@ == drained.1);
                assert(next.walk.timeline as int == sat(pre.timeline + velocity));
                assert(next.walk.segment_factory == pre.segment_factory);
                0
            };
            assert(next.walk.backgrounds@.len() == 2);
            assert(spec_walking_tick_with(pre, next.walk, jump, slide, moved, kind));
            assert(spec_walking_tick(pre, next.walk, jump, slide));
        }

        if next.walk.knocked_out() {
            WalkingEndState::Complete(next.end_game())
        } else {
            WalkingEndState::Continue(next)
        }
    }

    /// The run is over: hand the walk to the GameOver state.
    fn end_game(self) -> (r: WalkTheDogState<GameOver>)
        ensures
            r.walk == self.walk,
    {
        WalkTheDogState { walk: self.walk, _state: GameOver }
    }
}

} // verus!
