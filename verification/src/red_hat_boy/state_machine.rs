//! The Runner's state machine: a closed set of named states with explicit
//! transition rules. An event with no rule for the current state leaves the
//! state unchanged.

use vstd::prelude::*;
use super::context::RedHatBoyContext;
use super::states::{
    Falling, Idle, Jumping, JumpingEndState, KnockedOut, RedHatBoyState, Running, Sliding,
    SlidingEndState, FallingEndState, DEAD_FRAME_NAME, FALLING_FRAMES, FALL_FRAME_NAME,
    IDLE_FRAMES, IDLE_FRAME_NAME, JUMPING_FRAMES, JUMP_FRAME_NAME, JUMP_SPEED, RUNNING_FRAMES,
    RUN_FRAME_NAME, SLIDE_FRAME_NAME, SLIDING_FRAMES,
};

verus! {

/// A command or event handed to the Runner's machine.
#[derive(Clone, Copy, PartialEq, Eq, Structural, Debug)]
pub enum Event {
    Jump,
    KnockOut,
    Land(i16),
    Run,
    Slide,
    Update,
}

/// The Runner's machine: exactly one active state at a time.
#[derive(Clone, Copy, Debug)]
#[verifier::ext_equal]
pub enum RedHatBoyStateMachine {
    Falling(RedHatBoyState<Falling>),
    Idle(RedHatBoyState<Idle>),
    Jumping(RedHatBoyState<Jumping>),
    KnockedOut(RedHatBoyState<KnockedOut>),
    Running(RedHatBoyState<Running>),
    Sliding(RedHatBoyState<Sliding>),
}

impl RedHatBoyStateMachine {
    /// The context of the active state.
    pub open spec fn spec_context(self) -> RedHatBoyContext {
        match self {
            RedHatBoyStateMachine::Falling(s) => s.context,
            RedHatBoyStateMachine::Idle(s) => s.context,
            RedHatBoyStateMachine::Jumping(s) => s.context,
            RedHatBoyStateMachine::KnockedOut(s) => s.context,
            RedHatBoyStateMachine::Running(s) => s.context,
            RedHatBoyStateMachine::Sliding(s) => s.context,
        }
    }

    /// The frame ceiling of the active state's animation.
    pub open spec fn spec_frame_count(self) -> u8 {
        match self {
            RedHatBoyStateMachine::Falling(_) => FALLING_FRAMES,
            RedHatBoyStateMachine::Idle(_) => IDLE_FRAMES,
            RedHatBoyStateMachine::Jumping(_) => JUMPING_FRAMES,
            RedHatBoyStateMachine::KnockedOut(_) => FALLING_FRAMES,
            RedHatBoyStateMachine::Running(_) => RUNNING_FRAMES,
            RedHatBoyStateMachine::Sliding(_) => SLIDING_FRAMES,
        }
    }

    /// The animation name of the active state.
    pub open spec fn spec_frame_base(self) -> Seq<char> {
        match self {
            RedHatBoyStateMachine::Falling(_) => FALL_FRAME_NAME@,
            RedHatBoyStateMachine::Idle(_) => IDLE_FRAME_NAME@,
            RedHatBoyStateMachine::Jumping(_) => JUMP_FRAME_NAME@,
            RedHatBoyStateMachine::KnockedOut(_) => DEAD_FRAME_NAME@,
            RedHatBoyStateMachine::Running(_) => RUN_FRAME_NAME@,
            RedHatBoyStateMachine::Sliding(_) => SLIDE_FRAME_NAME@,
        }
    }

    /// The frame counter never passes the active state's ceiling.
    pub open spec fn wf(self) -> bool {
        self.spec_context().frame <= self.spec_frame_count()
    }

    /// The Runner is in motion: running, jumping or sliding.
    pub open spec fn spec_is_running(self) -> bool {
        match self {
            RedHatBoyStateMachine::Jumping(_) => true,
            RedHatBoyStateMachine::Running(_) => true,
            RedHatBoyStateMachine::Sliding(_) => true,
            _ => false,
        }
    }

    /// The complete transition relation of the Runner's machine. Events
    /// without a rule for the current state are no-ops; `KnockedOut` is
    /// terminal.
    pub open spec fn spec_transition(self, event: Event) -> RedHatBoyStateMachine {
        match (self, event) {
            (RedHatBoyStateMachine::Idle(s), Event::Run) => RedHatBoyStateMachine::Running(
                RedHatBoyState {
                    context: s.context.spec_reset_frame().spec_run_right(),
                    _state: Running,
                },
            ),
            (RedHatBoyStateMachine::Idle(s), Event::Update) => RedHatBoyStateMachine::Idle(
                RedHatBoyState { context: s.context.spec_update(IDLE_FRAMES), _state: Idle },
            ),
            (RedHatBoyStateMachine::Running(s), Event::Jump) => RedHatBoyStateMachine::Jumping(
                RedHatBoyState {
                    context: s.context.spec_set_vertical_velocity(JUMP_SPEED).spec_reset_frame(),
                    _state: Jumping,
                },
            ),
            (RedHatBoyStateMachine::Running(s), Event::Slide) => RedHatBoyStateMachine::Sliding(
                RedHatBoyState { context: s.context.spec_reset_frame(), _state: Sliding },
            ),
            (RedHatBoyStateMachine::Running(s), Event::KnockOut) => RedHatBoyStateMachine::Falling(
                RedHatBoyState { context: s.context.spec_reset_frame().spec_stop(), _state: Falling },
            ),
            (RedHatBoyStateMachine::Running(s), Event::Land(position)) => {
                RedHatBoyStateMachine::Running(
                    RedHatBoyState { context: s.context.spec_set_on(position as int), _state: Running },
                )
            },
            (RedHatBoyStateMachine::Running(s), Event::Update) => RedHatBoyStateMachine::Running(
                RedHatBoyState { context: s.context.spec_update(RUNNING_FRAMES), _state: Running },
            ),
            (RedHatBoyStateMachine::Jumping(s), Event::KnockOut) => RedHatBoyStateMachine::Falling(
                RedHatBoyState { context: s.context.spec_reset_frame().spec_stop(), _state: Falling },
            ),
            (RedHatBoyStateMachine::Jumping(s), Event::Land(position)) => {
                RedHatBoyStateMachine::Running(
                    RedHatBoyState {
                        context: s.context.spec_reset_frame().spec_set_on(position as int),
                        _state: Running,
                    },
                )
            },
            (RedHatBoyStateMachine::Jumping(s), Event::Update) => {
                let next = s.context.spec_update(JUMPING_FRAMES);
                if next.position.y >= next.spec_resting() {
                    RedHatBoyStateMachine::Running(
                        RedHatBoyState {
                            context: next.spec_reset_frame().spec_set_on(next.floor as int),
                            _state: Running,
                        },
                    )
                } else {
                    RedHatBoyStateMachine::Jumping(RedHatBoyState { context: next, _state: Jumping })
                }
            },
            (RedHatBoyStateMachine::Sliding(s), Event::KnockOut) => RedHatBoyStateMachine::Falling(
                RedHatBoyState { context: s.context.spec_reset_frame().spec_stop(), _state: Falling },
            ),
            (RedHatBoyStateMachine::Sliding(s), Event::Land(position)) => {
                RedHatBoyStateMachine::Sliding(
                    RedHatBoyState { context: s.context.spec_set_on(position as int), _state: Sliding },
                )
            },
            (RedHatBoyStateMachine::Sliding(s), Event::Update) => {
                let next = s.context.spec_update(SLIDING_FRAMES);
                if next.frame >= SLIDING_FRAMES {
                    RedHatBoyStateMachine::Running(
                        RedHatBoyState { context: next.spec_reset_frame(), _state: Running },
                    )
                } else {
                    RedHatBoyStateMachine::Sliding(RedHatBoyState { context: next, _state: Sliding })
                }
            },
            (RedHatBoyStateMachine::Falling(s), Event::Update) => {
                let next = s.context.spec_update(FALLING_FRAMES);
                if next.frame >= FALLING_FRAMES {
                    RedHatBoyStateMachine::KnockedOut(
                        RedHatBoyState { context: next, _state: KnockedOut },
                    )
                } else {
                    RedHatBoyStateMachine::Falling(RedHatBoyState { context: next, _state: Falling })
                }
            },
            _ => self,
        }
    }

    pub fn context(&self) -> (r: &RedHatBoyContext)
        ensures
            *r == self.spec_context(),
    {
        match self {
            RedHatBoyStateMachine::Falling(s) => s.context(),
            RedHatBoyStateMachine::Idle(s) => s.context(),
            RedHatBoyStateMachine::Jumping(s) => s.context(),
            RedHatBoyStateMachine::KnockedOut(s) => s.context(),
            RedHatBoyStateMachine::Running(s) => s.context(),
            RedHatBoyStateMachine::Sliding(s) => s.context(),
        }
    }

    pub fn frame_name(&self) -> (r: &'static str)
        ensures
            r@ == self.spec_frame_base(),
    {
        match self {
            RedHatBoyStateMachine::Falling(s) => s.frame_name(),
            RedHatBoyStateMachine::Idle(s) => s.frame_name(),
            RedHatBoyStateMachine::Jumping(s) => s.frame_name(),
            RedHatBoyStateMachine::KnockedOut(s) => s.frame_name(),
            RedHatBoyStateMachine::Running(s) => s.frame_name(),
            RedHatBoyStateMachine::Sliding(s) => s.frame_name(),
        }
    }

    pub fn is_running(&self) -> (r: bool)
        ensures
            r == self.spec_is_running(),
    {
        match self {
            RedHatBoyStateMachine::Jumping(_) => true,
            RedHatBoyStateMachine::Running(_) => true,
            RedHatBoyStateMachine::Sliding(_) => true,
            _ => false,
        }
    }

    pub fn knocked_out(&self) -> (r: bool)
        ensures
            r == (self matches RedHatBoyStateMachine::KnockedOut(_)),
    {
        match self {
            RedHatBoyStateMachine::KnockedOut(_) => true,
            _ => false,
        }
    }

    /// Applies one event to the machine.
    #[verifier::rlimit(60)]
    pub fn transition(self, event: Event) -> (r: RedHatBoyStateMachine)
        ensures
            r == self.spec_transition(event),
    {
        let r = match (self, event) {
            (RedHatBoyStateMachine::Idle(state), Event::Run) => {
                RedHatBoyStateMachine::Running(state.run())
            },
            (RedHatBoyStateMachine::Idle(state), Event::Update) => {
                RedHatBoyStateMachine::Idle(state.update())
            },
            (RedHatBoyStateMachine::Running(state), Event::Jump) => {
                RedHatBoyStateMachine::Jumping(state.jump())
            },
            (RedHatBoyStateMachine::Running(state), Event::Slide) => {
                RedHatBoyStateMachine::Sliding(state.slide())
            },
            (RedHatBoyStateMachine::Running(state), Event::KnockOut) => {
                RedHatBoyStateMachine::Falling(state.knock_out())
            },
            (RedHatBoyStateMachine::Running(state), Event::Land(position)) => {
                RedHatBoyStateMachine::Running(state.land_on(position))
            },
            (RedHatBoyStateMachine::Running(state), Event::Update) => {
                RedHatBoyStateMachine::Running(state.update())
            },
            (RedHatBoyStateMachine::Jumping(state), Event::KnockOut) => {
                RedHatBoyStateMachine::Falling(state.knock_out())
            },
            (RedHatBoyStateMachine::Jumping(state), Event::Land(position)) => {
                RedHatBoyStateMachine::Running(state.land_on(position))
            },
            (RedHatBoyStateMachine::Jumping(state), Event::Update) => {
                match state.update() {
                    JumpingEndState::Jumping(s) => RedHatBoyStateMachine::Jumping(s),
                    JumpingEndState::Landing(s) => RedHatBoyStateMachine::Running(s),
                }
            },
            (RedHatBoyStateMachine::Sliding(state), Event::KnockOut) => {
                RedHatBoyStateMachine::Falling(state.knock_out())
            },
            (RedHatBoyStateMachine::Sliding(state), Event::Land(position)) => {
                RedHatBoyStateMachine::Sliding(state.land_on(position))
            },
            (RedHatBoyStateMachine::Sliding(state), Event::Update) => {
                match state.update() {
                    SlidingEndState::Sliding(s) => RedHatBoyStateMachine::Sliding(s),
                    SlidingEndState::Complete(s) => RedHatBoyStateMachine::Running(s),
                }
            },
            (RedHatBoyStateMachine::Falling(state), Event::Update) => {
                match state.update() {
                    FallingEndState::Falling(s) => RedHatBoyStateMachine::Falling(s),
                    FallingEndState::Complete(s) => RedHatBoyStateMachine::KnockedOut(s),
                }
            },
            (machine, _) => machine,
        };
        proof {
            assert(r =~= self.spec_transition(event));
        }
        r
    }

    /// One tick of physics and animation.
    pub fn update(self) -> (r: RedHatBoyStateMachine)
        ensures
            r == self.spec_transition(Event::Update),
    {
        self.transition(Event::Update)
    }
}

/// Law: every transition keeps the frame counter within the frame ceiling of
/// the state it lands in.
pub proof fn lemma_transition_preserves_wf(machine: RedHatBoyStateMachine, event: Event)
    requires
        machine.wf(),
    ensures
        machine.spec_transition(event).wf(),
{
}

/// `machine` after `n` ticks (`Update` events).
pub open spec fn spec_machine_updates(machine: RedHatBoyStateMachine, n: nat) -> RedHatBoyStateMachine
    decreases n,
{
    if n == 0 {
        machine
    } else {
        spec_machine_updates(machine, (n - 1) as nat).spec_transition(Event::Update)
    }
}

/// Law (finite animation, sliding): from a fresh sliding animation, each
/// tick before the frame ceiling stays in `Sliding` with the counter
/// advancing, and the tick that reaches the ceiling performs the documented
/// automatic transition back to `Running` — exactly once, with a fresh
/// animation.
pub proof fn lemma_sliding_completes_once(s: RedHatBoyState<Sliding>, n: nat)
    requires
        s.context.frame == 0,
        1 <= n <= SLIDING_FRAMES,
    ensures
        n < SLIDING_FRAMES ==> (spec_machine_updates(RedHatBoyStateMachine::Sliding(s), n)
            matches RedHatBoyStateMachine::Sliding(t) && t.context.frame == n),
        n == SLIDING_FRAMES ==> (spec_machine_updates(RedHatBoyStateMachine::Sliding(s), n)
            matches RedHatBoyStateMachine::Running(t) && t.context.frame == 0),
    decreases n,
{
    if n > 1 {
        lemma_sliding_completes_once(s, (n - 1) as nat);
    } else {
        assert(spec_machine_updates(RedHatBoyStateMachine::Sliding(s), 0)
            == RedHatBoyStateMachine::Sliding(s));
    }
}

/// Law (finite animation, falling): from a fresh falling animation, each
/// tick before the frame ceiling stays in `Falling`, and the tick that
/// reaches the ceiling performs the documented automatic transition to the
/// terminal `KnockedOut` — exactly once: `KnockedOut` never transitions
/// again.
pub proof fn lemma_falling_completes_once(s: RedHatBoyState<Falling>, n: nat)
    requires
        s.context.frame == 0,
        1 <= n <= FALLING_FRAMES,
    ensures
        n < FALLING_FRAMES ==> (spec_machine_updates(RedHatBoyStateMachine::Falling(s), n)
            matches RedHatBoyStateMachine::Falling(t) && t.context.frame == n),
        n == FALLING_FRAMES ==> spec_machine_updates(RedHatBoyStateMachine::Falling(s), n)
            matches RedHatBoyStateMachine::KnockedOut(_),
    decreases n,
{
    if n > 1 {
        lemma_falling_completes_once(s, (n - 1) as nat);
    } else {
        assert(spec_machine_updates(RedHatBoyStateMachine::Falling(s), 0)
            == RedHatBoyStateMachine::Falling(s));
    }
}

/// Law (terminal state): a knocked-out Runner never leaves `KnockedOut`,
/// whatever event arrives.
pub proof fn lemma_knocked_out_is_terminal(machine: RedHatBoyStateMachine, event: Event)
    requires
        machine matches RedHatBoyStateMachine::KnockedOut(_),
    ensures
        machine.spec_transition(event) == machine,
{
}

} // verus!
