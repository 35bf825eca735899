//! The live run: the Runner, the Companion, the obstacle registry, the
//! event queue and the course timeline. One instance owns everything a run
//! mutates; the gameplay states drive it one tick at a time.

use vstd::prelude::*;
use crate::dog::Dog;
use crate::event_queue::{EventPublisher, GameEvent};
use crate::image::Image;
use crate::obstacles::Obstacle;
use crate::rect::{sat, sat_add, sat_neg, Point};
use crate::red_hat_boy::state_machine::RedHatBoyStateMachine;
use crate::red_hat_boy::RedHatBoy;
use crate::segments::{spec_is_segment, SegmentFactory, FIRST_SEGMENT_KIND, SEGMENT_KINDS};

verus! {

/// Horizontal gap between the end of the known course and a newly
/// generated segment.
pub const OBSTACLE_BUFFER: i16 = 20;

/// The right edge of the rightmost known obstacle (0 with no obstacles).
pub open spec fn spec_rightmost(obstacles: Seq<Obstacle>) -> int
    decreases obstacles.len(),
{
    if obstacles.len() == 0 {
        0
    } else if obstacles.len() == 1 {
        obstacles[0].spec_right()
    } else {
        let rest = spec_rightmost(obstacles.drop_last());
        if obstacles.last().spec_right() > rest {
            obstacles.last().spec_right()
        } else {
            rest
        }
    }
}

/// Some obstacle of `all` with the identity `id` has scrolled past the left
/// edge of the screen.
pub open spec fn spec_surpassed(all: Seq<Obstacle>, id: Seq<char>) -> bool {
    exists|i: int| 0 <= i < all.len() && all[i].spec_right() <= 0 && #[trigger] all[i].spec_id() == id
}

/// `remaining` filtered down to the obstacles whose identity is not marked
/// as surpassed in `all`: what one retirement pass keeps.
pub open spec fn spec_kept(remaining: Seq<Obstacle>, all: Seq<Obstacle>) -> Seq<Obstacle>
    decreases remaining.len(),
{
    if remaining.len() == 0 {
        Seq::empty()
    } else {
        let prefix = spec_kept(remaining.drop_last(), all);
        if spec_surpassed(all, remaining.last().spec_id()) {
            prefix
        } else {
            prefix.push(remaining.last())
        }
    }
}

/// `id` occurs among `ids`.
pub open spec fn spec_id_in(ids: Seq<String>, id: Seq<char>) -> bool {
    exists|i: int| 0 <= i < ids.len() && #[trigger] ids[i]@ == id
}

/// One event dispatched to every obstacle, in registration order.
pub open spec fn spec_obstacles_after_event(obstacles: Seq<Obstacle>, event: GameEvent) -> Seq<
    Obstacle,
> {
    obstacles.map_values(|o: Obstacle| o.spec_after_event(event))
}

/// The whole queue drained in publish order: each event is handed to the
/// Companion and then to every obstacle before the next event is touched,
/// so every subscriber observes one event's effects fully applied before
/// the next is dispatched.
pub open spec fn spec_drain(
    dog: crate::dog::state_machine::DogStateMachine,
    obstacles: Seq<Obstacle>,
    events: Seq<GameEvent>,
    sheet: crate::sheet::Sheet,
) -> (crate::dog::state_machine::DogStateMachine, Seq<Obstacle>)
    decreases events.len(),
{
    if events.len() == 0 {
        (dog, obstacles)
    } else {
        let event = events[0];
        let dog1 = (Dog { sprite_sheet: sheet, state_machine: dog }).spec_after_event(event);
        let obstacles1 = spec_obstacles_after_event(obstacles, event);
        spec_drain(dog1, obstacles1, events.drop_first(), sheet)
    }
}

/// Law (event ordering): when `a` was published before `b`, draining the
/// queue dispatches `a` to the Companion and to every obstacle, and only
/// then dispatches `b` — every subscriber observes `a`'s effects fully
/// applied before `b`.
pub proof fn lemma_event_ordering(
    dog: crate::dog::state_machine::DogStateMachine,
    obstacles: Seq<Obstacle>,
    a: GameEvent,
    b: GameEvent,
    rest: Seq<GameEvent>,
    sheet: crate::sheet::Sheet,
)
    ensures
        ({
            let dog_a = (Dog { sprite_sheet: sheet, state_machine: dog }).spec_after_event(a);
            let obstacles_a = spec_obstacles_after_event(obstacles, a);
            let dog_b = (Dog { sprite_sheet: sheet, state_machine: dog_a }).spec_after_event(b);
            let obstacles_b = spec_obstacles_after_event(obstacles_a, b);
            spec_drain(dog, obstacles, seq![a, b] + rest, sheet) == spec_drain(
                dog_b,
                obstacles_b,
                rest,
                sheet,
            )
        }),
{
    let queue = seq![a, b] + rest;
    let dog_a = (Dog { sprite_sheet: sheet, state_machine: dog }).spec_after_event(a);
    let obstacles_a = spec_obstacles_after_event(obstacles, a);
    let dog_b = (Dog { sprite_sheet: sheet, state_machine: dog_a }).spec_after_event(b);
    let obstacles_b = spec_obstacles_after_event(obstacles_a, b);
    assert(queue[0] == a);
    assert(queue.drop_first() =~= seq![b] + rest);
    assert(spec_drain(dog, obstacles, queue, sheet) == spec_drain(
        dog_a,
        obstacles_a,
        seq![b] + rest,
        sheet,
    ));
    assert((seq![b] + rest)[0] == b);
    assert((seq![b] + rest).drop_first() =~= rest);
    assert(spec_drain(dog_a, obstacles_a, seq![b] + rest, sheet) == spec_drain(
        dog_b,
        obstacles_b,
        rest,
        sheet,
    ));
}

/// The events one navigate pass publishes: each obstacle's edge events, in
/// registration order.
pub open spec fn spec_navigate_all(obstacles: Seq<Obstacle>, dog: Dog) -> Seq<GameEvent>
    decreases obstacles.len(),
{
    if obstacles.len() == 0 {
        Seq::empty()
    } else {
        spec_navigate_all(obstacles.drop_last(), dog) + obstacles.last().spec_navigate_events(dog)
    }
}

/// The fold of one collision pass over the obstacles, in registration
/// order: the Runner's machine after every obstacle has tested it, and the
/// events those tests published.
pub open spec fn spec_check_fold(obstacles: Seq<Obstacle>, boy: RedHatBoy) -> (
    RedHatBoyStateMachine,
    Seq<GameEvent>,
)
    decreases obstacles.len(),
{
    if obstacles.len() == 0 {
        (boy.state_machine, Seq::empty())
    } else {
        let prefix = spec_check_fold(obstacles.drop_last(), boy);
        let mid = RedHatBoy { state_machine: prefix.0, ..boy };
        (
            obstacles.last().spec_boy_after_check(mid),
            prefix.1 + obstacles.last().spec_check_events(mid),
        )
    }
}

/// `post` is `pre` with every obstacle shifted horizontally by `x`.
pub open spec fn spec_all_moved(pre: Seq<Obstacle>, post: Seq<Obstacle>, x: i16) -> bool {
    post.len() == pre.len() && forall|i: int|
        0 <= i < pre.len() ==> Obstacle::spec_moved(pre[i], #[trigger] post[i], x)
}

/// One Companion tick of the run outside the Runner's own physics: the
/// queue is drained in publish order, the Companion advances one tick, and
/// every obstacle inspects the Companion's post-physics position. Only the
/// Companion, the obstacles and the queue change.
pub open spec fn spec_companion_tick(pre: Walk, post: Walk) -> bool {
    let drained = spec_drain(pre.dog.state_machine, pre.obstacles@, pre.events@, pre.dog.sprite_sheet);
    let machine = drained.0.spec_transition(crate::dog::state_machine::Event::Update);
    let dog = Dog { sprite_sheet: pre.dog.sprite_sheet, state_machine: machine };
    &&& post.dog.state_machine == machine
    &&& post.dog.sprite_sheet == pre.dog.sprite_sheet
    &&& post.obstacles@ == drained.1
    &&& post.events@ == drained.0.spec_update_events() + spec_navigate_all(drained.1, dog)
    &&& post.boy == pre.boy
    &&& post.backgrounds == pre.backgrounds
    &&& post.segment_factory == pre.segment_factory
    &&& post.timeline == pre.timeline
}

/// `post` is a full reset of `pre`: fresh characters built from the same
/// sprite sheets, a fresh factory whose ids restart, exactly the first
/// segment's obstacles, an empty event queue, the backgrounds kept.
pub open spec fn spec_is_reset(pre: Walk, post: Walk) -> bool {
    &&& post.boy.sprite_sheet == pre.boy.sprite_sheet
    &&& post.boy.state_machine matches RedHatBoyStateMachine::Idle(s) && s.context
        == crate::red_hat_boy::context::RedHatBoyContext::spec_initial()
    &&& post.dog.sprite_sheet == pre.dog.sprite_sheet
    &&& post.dog.state_machine matches crate::dog::state_machine::DogStateMachine::Running(s)
        && s.context == crate::dog::context::DogContext::spec_initial()
    &&& post.events@ == Seq::<GameEvent>::empty()
    &&& post.segment_factory.id == 1
    &&& post.segment_factory.stone_width == pre.segment_factory.stone_width
    &&& post.segment_factory.stone_height == pre.segment_factory.stone_height
    &&& spec_is_segment(
        post.obstacles@,
        FIRST_SEGMENT_KIND as int,
        1,
        pre.segment_factory.stone_width,
        pre.segment_factory.stone_height,
        0,
    )
    &&& post.timeline as int == spec_rightmost(post.obstacles@)
    &&& post.backgrounds == pre.backgrounds
}

pub struct Walk {
    /// The two tiling background images, wrapping end-to-end as the course
    /// scrolls.
    pub backgrounds: [Image; 2],
    pub boy: RedHatBoy,
    pub dog: Dog,
    /// The pending-event queue with its publish handle.
    pub events: EventPublisher,
    /// The registry of live obstacles, in registration order. Together with
    /// the Companion these are the event subscribers.
    pub obstacles: Vec<Obstacle>,
    pub segment_factory: SegmentFactory,
    /// The right edge of the known course.
    pub timeline: i16,
}

impl Walk {
    /// Both characters are well-formed.
    pub open spec fn wf(self) -> bool {
        self.boy.wf() && self.dog.wf()
    }

    /// A fresh run: both characters in their initial state, the
    /// deterministic first segment registered, the timeline at its right
    /// edge, no pending events.
    pub fn new(
        boy: RedHatBoy,
        dog: Dog,
        background_width: i16,
        background_height: i16,
        stone_width: i16,
        stone_height: i16,
    ) -> (r: Walk)
        ensures
            r.boy == boy,
            r.dog == dog,
            r.events@ == Seq::<GameEvent>::empty(),
            r.segment_factory.id == 1,
            r.segment_factory.stone_width == stone_width,
            r.segment_factory.stone_height == stone_height,
            spec_is_segment(r.obstacles@, FIRST_SEGMENT_KIND as int, 1, stone_width, stone_height, 0),
            r.timeline as int == spec_rightmost(r.obstacles@),
            r.backgrounds[0].bounding_box == (crate::rect::Rect {
                position: Point { x: 0, y: 0 },
                width: background_width,
                height: background_height,
            }),
            r.backgrounds[1].bounding_box == (crate::rect::Rect {
                position: Point { x: background_width, y: 0 },
                width: background_width,
                height: background_height,
            }),
    {
        let mut segment_factory = SegmentFactory::new(stone_width, stone_height);
        let starting_obstacles = segment_factory.first();
        let timeline = rightmost(&starting_obstacles);

        Walk {
            backgrounds: [
                Image::new(Point { x: 0, y: 0 }, background_width, background_height),
                Image::new(Point { x: background_width, y: 0 }, background_width, background_height),
            ],
            boy,
            dog,
            events: EventPublisher::new(),
            obstacles: starting_obstacles,
            segment_factory,
            timeline,
        }
    }

    /// A full reset: fresh characters built from the same sprite sheets, a
    /// fresh factory whose ids restart, exactly the first segment's
    /// obstacles, an empty event queue.
    pub fn reset(walk: Walk) -> (r: Walk)
        ensures
            spec_is_reset(walk, r),
    {
        let mut segment_factory = SegmentFactory::new(
            walk.segment_factory.stone_width,
            walk.segment_factory.stone_height,
        );
        let starting_obstacles = segment_factory.first();
        let timeline = rightmost(&starting_obstacles);

        Walk {
            backgrounds: walk.backgrounds,
            boy: RedHatBoy::reset(walk.boy),
            dog: Dog::reset(walk.dog),
            events: EventPublisher::new(),
            obstacles: starting_obstacles,
            segment_factory,
            timeline,
        }
    }

    /// The course's scroll velocity: the opposite of the Runner's forward
    /// speed.
    pub fn velocity(&self) -> (r: i16)
        ensures
            r as int == sat(-self.boy.state_machine.spec_context().velocity.x),
    {
        sat_neg(self.boy.walking_speed())
    }

    /// Whether the Runner has reached the terminal knocked-out state.
    pub fn knocked_out(&self) -> (r: bool)
        ensures
            r == (self.boy.state_machine matches RedHatBoyStateMachine::KnockedOut(_)),
    {
        self.boy.knocked_out()
    }

    /// Drains the event queue: pops events in publish order and hands each
    /// to the Companion and then to every obstacle, in registration order,
    /// before the next event is touched.
    pub fn process_events(&mut self)
        requires
            old(self).wf(),
        ensures
            final(self).wf(),
            ({
                let drained = spec_drain(
                    old(self).dog.state_machine,
                    old(self).obstacles@,
                    old(self).events@,
                    old(self).dog.sprite_sheet,
                );
                final(self).dog.state_machine == drained.0 && final(self).obstacles@ == drained.1
            }),
            final(self).dog.sprite_sheet == old(self).dog.sprite_sheet,
            final(self).events@ == Seq::<GameEvent>::empty(),
            final(self).boy == old(self).boy,
            final(self).backgrounds == old(self).backgrounds,
            final(self).segment_factory == old(self).segment_factory,
            final(self).timeline == old(self).timeline,
    {
        while !self.events.is_empty()
            invariant
                self.wf(),
                self.dog.sprite_sheet == old(self).dog.sprite_sheet,
                self.boy == old(self).boy,
                self.backgrounds == old(self).backgrounds,
                self.segment_factory == old(self).segment_factory,
                self.timeline == old(self).timeline,
                spec_drain(
                    old(self).dog.state_machine,
                    old(self).obstacles@,
                    old(self).events@,
                    old(self).dog.sprite_sheet,
                ) == spec_drain(
                    self.dog.state_machine,
                    self.obstacles@,
                    self.events@,
                    self.dog.sprite_sheet,
                ),
            decreases self.events@.len(),
        {
            let event = self.events.pop_front().unwrap();
            let ghost pre_obstacles = self.obstacles@;
            let ghost pre_machine = self.dog.state_machine;
            self.dog.process_event(&event);
            let ghost dispatched_dog = self.dog;
            let ghost pre_events = self.events;
            let n = self.obstacles.len();
            let mut i: usize = 0;
            while i < n
                invariant
                    n == self.obstacles@.len(),
                    n == pre_obstacles.len(),
                    0 <= i <= n,
                    self.dog == dispatched_dog,
                    self.events == pre_events,
                    self.boy == old(self).boy,
                    self.backgrounds == old(self).backgrounds,
                    self.segment_factory == old(self).segment_factory,
                    self.timeline == old(self).timeline,
                    forall|j: int|
                        0 <= j < i ==> self.obstacles@[j] == pre_obstacles[j].spec_after_event(
                            event,
                        ),
                    forall|j: int| i <= j < n ==> self.obstacles@[j] == pre_obstacles[j],
                decreases n - i,
            {
                self.obstacles[i].process_event(&event);
                i += 1;
            }
            proof {
                assert(self.obstacles@ =~= spec_obstacles_after_event(pre_obstacles, event));
                let command = Dog::spec_command(event);
                if command is Some {
                    crate::dog::state_machine::lemma_transition_preserves_wf(
                        pre_machine,
                        command.unwrap(),
                    );
                }
            }
        }
    }

    /// One tick of the run outside the Runner's own physics: drains the
    /// queue, advances the Companion, and lets every obstacle inspect the
    /// Companion's post-physics position.
    pub fn update(&mut self)
        requires
            old(self).wf(),
        ensures
            final(self).wf(),
            spec_companion_tick(*old(self), *final(self)),
    {
        self.process_events();
        let ghost drained_machine = self.dog.state_machine;
        self.dog.update(&mut self.events);
        proof {
            crate::dog::state_machine::lemma_transition_preserves_wf(
                drained_machine,
                crate::dog::state_machine::Event::Update,
            );
            assert(self.events@ =~= drained_machine.spec_update_events());
        }
        self.navigate_obstacles();
    }

    /// Lets every obstacle inspect the Companion, in registration order,
    /// publishing this tick's edge events.
    fn navigate_obstacles(&mut self)
        requires
            old(self).dog.wf(),
        ensures
            final(self).events@ == old(self).events@ + spec_navigate_all(
                old(self).obstacles@,
                old(self).dog,
            ),
            final(self).dog == old(self).dog,
            final(self).boy == old(self).boy,
            final(self).obstacles == old(self).obstacles,
            final(self).backgrounds == old(self).backgrounds,
            final(self).segment_factory == old(self).segment_factory,
            final(self).timeline == old(self).timeline,
    {
        let n = self.obstacles.len();
        let mut i: usize = 0;
        while i < n
            invariant
                n == self.obstacles@.len(),
                0 <= i <= n,
                self.dog == old(self).dog,
                self.dog.wf(),
                self.boy == old(self).boy,
                self.obstacles == old(self).obstacles,
                self.backgrounds == old(self).backgrounds,
                self.segment_factory == old(self).segment_factory,
                self.timeline == old(self).timeline,
                self.events@ == old(self).events@ + spec_navigate_all(
                    self.obstacles@.subrange(0, i as int),
                    self.dog,
                ),
            decreases n - i,
        {
            let obstacle = &self.obstacles[i];
            obstacle.navigate(&self.dog, &mut self.events);
            proof {
                assert(self.obstacles@.subrange(0, i as int + 1).drop_last() =~= self.obstacles@
                    .subrange(0, i as int));
                assert(self.obstacles@.subrange(0, i as int + 1).last() == self.obstacles@[
                    i as int
                ]);
                assert(self.events@ =~= old(self).events@ + spec_navigate_all(
                    self.obstacles@.subrange(0, i as int + 1),
                    self.dog,
                ));
            }
            i += 1;
        }
        proof {
            assert(self.obstacles@.subrange(0, n as int) =~= self.obstacles@);
        }
    }

    /// Shifts every obstacle horizontally by `distance` (the course
    /// scroll).
    pub fn move_obstacles(&mut self, distance: i16)
        ensures
            spec_all_moved(old(self).obstacles@, final(self).obstacles@, distance),
            final(self).dog == old(self).dog,
            final(self).boy == old(self).boy,
            final(self).events == old(self).events,
            final(self).backgrounds == old(self).backgrounds,
            final(self).segment_factory == old(self).segment_factory,
            final(self).timeline == old(self).timeline,
    {
        let n = self.obstacles.len();
        let mut i: usize = 0;
        while i < n
            invariant
                n == self.obstacles@.len(),
                n == old(self).obstacles@.len(),
                0 <= i <= n,
                self.dog == old(self).dog,
                self.boy == old(self).boy,
                self.events == old(self).events,
                self.backgrounds == old(self).backgrounds,
                self.segment_factory == old(self).segment_factory,
                self.timeline == old(self).timeline,
                forall|j: int|
                    0 <= j < i ==> Obstacle::spec_moved(
                        old(self).obstacles@[j],
                        #[trigger] self.obstacles@[j],
                        distance,
                    ),
                forall|j: int| i <= j < n ==> self.obstacles@[j] == old(self).obstacles@[j],
            decreases n - i,
        {
            self.obstacles[i].move_horizontally(distance);
            i += 1;
        }
    }

    /// Tests the Runner against every obstacle, in registration order:
    /// each hit either lands or knocks out the Runner, publishing
    /// `BoyHitsObstacle` on a knock-out.
    pub fn check_intersections(&mut self)
        requires
            old(self).boy.wf(),
        ensures
            final(self).boy.state_machine == spec_check_fold(
                old(self).obstacles@,
                old(self).boy,
            ).0,
            final(self).boy.sprite_sheet == old(self).boy.sprite_sheet,
            final(self).boy.wf(),
            final(self).events@ == old(self).events@ + spec_check_fold(
                old(self).obstacles@,
                old(self).boy,
            ).1,
            final(self).dog == old(self).dog,
            final(self).obstacles == old(self).obstacles,
            final(self).backgrounds == old(self).backgrounds,
            final(self).segment_factory == old(self).segment_factory,
            final(self).timeline == old(self).timeline,
    {
        let n = self.obstacles.len();
        let mut i: usize = 0;
        while i < n
            invariant
                n == self.obstacles@.len(),
                0 <= i <= n,
                self.dog == old(self).dog,
                self.obstacles == old(self).obstacles,
                self.backgrounds == old(self).backgrounds,
                self.segment_factory == old(self).segment_factory,
                self.timeline == old(self).timeline,
                self.boy.wf(),
                self.boy.sprite_sheet == old(self).boy.sprite_sheet,
                self.boy.state_machine == spec_check_fold(
                    self.obstacles@.subrange(0, i as int),
                    old(self).boy,
                ).0,
                self.events@ == old(self).events@ + spec_check_fold(
                    self.obstacles@.subrange(0, i as int),
                    old(self).boy,
                ).1,
            decreases n - i,
        {
            proof {
                assert(self.boy =~= RedHatBoy {
                    state_machine: spec_check_fold(
                        self.obstacles@.subrange(0, i as int),
                        old(self).boy,
                    ).0,
                    ..old(self).boy
                });
            }
            let obstacle = &self.obstacles[i];
            obstacle.check_intersection(&mut self.boy, &mut self.events);
            proof {
                assert(self.obstacles@.subrange(0, i as int + 1).drop_last() =~= self.obstacles@
                    .subrange(0, i as int));
                assert(self.obstacles@.subrange(0, i as int + 1).last() == self.obstacles@[
                    i as int
                ]);
                assert(self.events@ =~= old(self).events@ + spec_check_fold(
                    self.obstacles@.subrange(0, i as int + 1),
                    old(self).boy,
                ).1);
            }
            i += 1;
        }
        proof {
            assert(self.obstacles@.subrange(0, n as int) =~= self.obstacles@);
        }
    }

    /// Retires every obstacle that has scrolled fully off-screen: the
    /// obstacles whose right edge is at or past the left screen edge are
    /// identified by their identity strings and removed from the registry
    /// (and with it from the subscriber list) in one pass.
    pub fn drop_surpassed_obstacles(&mut self)
        ensures
            final(self).obstacles@ == spec_kept(old(self).obstacles@, old(self).obstacles@),
            forall|i: int|
                0 <= i < final(self).obstacles@.len() ==> #[trigger] final(self).obstacles@[i]
                    .spec_right() > 0,
            final(self).dog == old(self).dog,
            final(self).boy == old(self).boy,
            final(self).events == old(self).events,
            final(self).backgrounds == old(self).backgrounds,
            final(self).segment_factory == old(self).segment_factory,
            final(self).timeline == old(self).timeline,
    {
        let ghost all = self.obstacles@;
        let n = self.obstacles.len();

        let mut to_drop: Vec<String> = Vec::new();
        let mut i: usize = 0;
        while i < n
            invariant
                n == self.obstacles@.len(),
                0 <= i <= n,
                all == self.obstacles@,
                forall|j: int|
                    0 <= j < to_drop@.len() ==> spec_surpassed(all, #[trigger] to_drop@[j]@),
                forall|k: int|
                    0 <= k < i && all[k].spec_right() <= 0 ==> spec_id_in(
                        to_drop@,
                        #[trigger] all[k].spec_id(),
                    ),
            decreases n - i,
        {
            let ghost pre_to_drop = to_drop@;
            if self.obstacles[i].right() <= 0 {
                to_drop.push(self.obstacles[i].id().clone());
                proof {
                    assert(to_drop@.last()@ == all[i as int].spec_id());
                    assert(spec_surpassed(all, all[i as int].spec_id()));
                    assert forall|k: int|
                        0 <= k < i + 1 && all[k].spec_right() <= 0 implies spec_id_in(
                        to_drop@,
                        #[trigger] all[k].spec_id(),
                    ) by {
                        if k < i {
                            let j = choose|j: int|
                                0 <= j < pre_to_drop.len() && #[trigger] pre_to_drop[j]@ == all[k]
                                    .spec_id();
                            assert(to_drop@[j]@ == all[k].spec_id());
                        } else {
                            assert(to_drop@[to_drop@.len() - 1]@ == all[k].spec_id());
                        }
                    }
                }
            }
            i += 1;
        }

        let mut remaining: Vec<Obstacle> = Vec::new();
        core::mem::swap(&mut remaining, &mut self.obstacles);
        let ghost orig = remaining@;
        let total = remaining.len();
        let mut kept: Vec<Obstacle> = Vec::new();
        let mut taken: usize = 0;
        while remaining.len() > 0
            invariant
                orig == all,
                total == orig.len(),
                taken <= total,
                remaining@ == orig.skip(taken as int),
                kept@ == spec_kept(orig.subrange(0, taken as int), all),
                forall|j: int|
                    0 <= j < kept@.len() ==> #[trigger] kept@[j].spec_right() > 0,
                forall|j: int|
                    0 <= j < to_drop@.len() ==> spec_surpassed(all, #[trigger] to_drop@[j]@),
                forall|k: int|
                    0 <= k < all.len() && all[k].spec_right() <= 0 ==> spec_id_in(
                        to_drop@,
                        #[trigger] all[k].spec_id(),
                    ),
            decreases remaining@.len(),
        {
            let obstacle = remaining.remove(0);
            proof {
                assert(obstacle == orig[taken as int]);
                assert(remaining@ =~= orig.skip(taken as int + 1));
                assert(orig.subrange(0, taken as int + 1).drop_last() =~= orig.subrange(
                    0,
                    taken as int,
                ));
                assert(orig.subrange(0, taken as int + 1).last() == orig[taken as int]);
            }
            let dropped = contains_id(&to_drop, obstacle.id());
            proof {
                if dropped {
                    let j = choose|j: int| 0 <= j < to_drop@.len() && to_drop@[j]@
                        == obstacle.spec_id();
                    assert(spec_surpassed(all, obstacle.spec_id()));
                } else {
                    if spec_surpassed(all, obstacle.spec_id()) {
                        let k = choose|k: int|
                            0 <= k < all.len() && all[k].spec_right() <= 0 && #[trigger] all[k]
                                .spec_id() == obstacle.spec_id();
                        assert(spec_id_in(to_drop@, all[k].spec_id()));
                        assert(false);
                    }
                    if obstacle.spec_right() <= 0 {
                        assert(spec_surpassed(all, obstacle.spec_id()));
                        assert(false);
                    }
                }
            }
            if !dropped {
                kept.push(obstacle);
            }
            taken += 1;
        }
        proof {
            assert(orig.subrange(0, orig.len() as int) =~= orig);
        }
        self.obstacles = kept;
    }

    /// Extends the course: builds one randomly selected segment just past
    /// the current timeline, registers its obstacles (and with them its
    /// subscribers), and moves the timeline to the new rightmost edge.
    pub fn generate_next_segment(&mut self)
        ensures
            final(self).segment_factory.id == old(self).segment_factory.spec_next_id(),
            final(self).segment_factory.stone_width == old(self).segment_factory.stone_width,
            final(self).segment_factory.stone_height == old(self).segment_factory.stone_height,
            final(self).obstacles@ == old(self).obstacles@ + final(self).obstacles@.skip(
                old(self).obstacles@.len() as int,
            ),
            final(self).timeline as int == spec_rightmost(
                final(self).obstacles@.skip(old(self).obstacles@.len() as int),
            ),
            exists|kind: int|
                0 <= kind < SEGMENT_KINDS && #[trigger] spec_is_segment(
                    final(self).obstacles@.skip(old(self).obstacles@.len() as int),
                    kind,
                    final(self).segment_factory.id,
                    old(self).segment_factory.stone_width,
                    old(self).segment_factory.stone_height,
                    sat(old(self).timeline + OBSTACLE_BUFFER) as i16,
                ),
            final(self).dog == old(self).dog,
            final(self).boy == old(self).boy,
            final(self).events == old(self).events,
            final(self).backgrounds == old(self).backgrounds,
    {
        let offset_x = sat_add(self.timeline, OBSTACLE_BUFFER);
        let mut next_obstacles = self.segment_factory.random(offset_x);
        let ghost fresh = next_obstacles@;

        self.timeline = rightmost(&next_obstacles);
        self.obstacles.append(&mut next_obstacles);
        proof {
            let kind = choose|kind: int|
                0 <= kind < SEGMENT_KINDS && spec_is_segment(
                    fresh,
                    kind,
                    self.segment_factory.id,
                    old(self).segment_factory.stone_width,
                    old(self).segment_factory.stone_height,
                    offset_x,
                );
            assert(spec_is_segment(
                fresh,
                kind,
                self.segment_factory.id,
                old(self).segment_factory.stone_width,
                old(self).segment_factory.stone_height,
                offset_x,
            ));
            assert(self.obstacles@.skip(old(self).obstacles@.len() as int) =~= fresh);
            assert(offset_x as int == sat(old(self).timeline + OBSTACLE_BUFFER));
            assert(spec_is_segment(
                self.obstacles@.skip(old(self).obstacles@.len() as int),
                kind,
                self.segment_factory.id,
                old(self).segment_factory.stone_width,
                old(self).segment_factory.stone_height,
                sat(old(self).timeline + OBSTACLE_BUFFER) as i16,
            ));
            assert(self.obstacles@ =~= old(self).obstacles@ + self.obstacles@.skip(
                old(self).obstacles@.len() as int,
            ));
        }
    }

    /// Scrolls the two tiling background images by `velocity`, wrapping
    /// each one to the end of the other once it has fully left the screen.
    pub fn scroll_background(&mut self, velocity: i16)
        ensures
            ({
                let scrolled = spec_scroll_backgrounds(
                    old(self).backgrounds@[0],
                    old(self).backgrounds@[1],
                    velocity,
                );
                final(self).backgrounds@[0] == scrolled.0 && final(self).backgrounds@[1]
                    == scrolled.1
            }),
            final(self).backgrounds@.len() == 2,
            final(self).dog == old(self).dog,
            final(self).boy == old(self).boy,
            final(self).events == old(self).events,
            final(self).obstacles == old(self).obstacles,
            final(self).segment_factory == old(self).segment_factory,
            final(self).timeline == old(self).timeline,
    {
        let mut first = self.backgrounds[0];
        let mut second = self.backgrounds[1];
        first.move_horizontally(velocity);
        second.move_horizontally(velocity);
        if first.right() < 0 {
            first.set_x(second.right());
        }
        if second.right() < 0 {
            second.set_x(first.right());
        }
        self.backgrounds = [first, second];
    }
}

/// The two background tiles after one scroll step: both shifted by
/// `velocity`, then each wrapped to the right edge of the other once fully
/// off-screen.
pub open spec fn spec_scroll_backgrounds(first: Image, second: Image, velocity: i16) -> (
    Image,
    Image,
) {
    let moved_first = Image {
        bounding_box: crate::rect::Rect {
            position: Point {
                x: sat(first.bounding_box.position.x + velocity) as i16,
                y: first.bounding_box.position.y,
            },
            ..first.bounding_box
        },
    };
    let moved_second = Image {
        bounding_box: crate::rect::Rect {
            position: Point {
                x: sat(second.bounding_box.position.x + velocity) as i16,
                y: second.bounding_box.position.y,
            },
            ..second.bounding_box
        },
    };
    let wrapped_first = if sat(moved_first.bounding_box.spec_right()) < 0 {
        Image {
            bounding_box: crate::rect::Rect {
                position: Point {
                    x: sat(moved_second.bounding_box.spec_right()) as i16,
                    y: moved_first.bounding_box.position.y,
                },
                ..moved_first.bounding_box
            },
        }
    } else {
        moved_first
    };
    let wrapped_second = if sat(moved_second.bounding_box.spec_right()) < 0 {
        Image {
            bounding_box: crate::rect::Rect {
                position: Point {
                    x: sat(wrapped_first.bounding_box.spec_right()) as i16,
                    y: moved_second.bounding_box.position.y,
                },
                ..moved_second.bounding_box
            },
        }
    } else {
        moved_second
    };
    (wrapped_first, wrapped_second)
}

/// `id` occurs among `ids`.
fn contains_id(ids: &Vec<String>, id: &String) -> (r: bool)
    ensures
        r == spec_id_in(ids@, id@),
{
    let n = ids.len();
    let mut i: usize = 0;
    while i < n
        invariant
            n == ids@.len(),
            0 <= i <= n,
            forall|j: int| 0 <= j < i ==> ids@[j]@ != id@,
        decreases n - i,
    {
        if ids[i] == *id {
            return true;
        }
        i += 1;
    }
    false
}

/// The right edge of the rightmost obstacle in `obstacle_list` (0 with no
/// obstacles).
pub fn rightmost(obstacle_list: &Vec<Obstacle>) -> (r: i16)
    ensures
        r as int == spec_rightmost(obstacle_list@),
{
    let n = obstacle_list.len();
    if n == 0 {
        return 0;
    }
    let mut r = obstacle_list[0].right();
    let mut i: usize = 1;
    while i < n
        invariant
            n == obstacle_list@.len(),
            1 <= i <= n,
            r as int == spec_rightmost(obstacle_list@.subrange(0, i as int)),
        decreases n - i,
    {
        let candidate = obstacle_list[i].right();
        proof {
            assert(obstacle_list@.subrange(0, i as int + 1).drop_last() =~= obstacle_list@
                .subrange(0, i as int));
            assert(obstacle_list@.subrange(0, i as int + 1).last() == obstacle_list@[i as int]);
        }
        if candidate > r {
            r = candidate;
        }
        i += 1;
    }
    proof {
        assert(obstacle_list@.subrange(0, n as int) =~= obstacle_list@);
    }
    r
}

} // verus!
