//! The closed set of obstacle kinds and the operations the registry and
//! the collision pass need from every obstacle. The obstacle catalog is
//! fixed, so the capability set is dispatched through a single `match`
//! instead of trait objects.

pub mod barrier;
pub mod obstacle_mark;
pub mod platform;

use vstd::prelude::*;
use crate::dog::Dog;
use crate::event_queue::{EventPublisher, EventSubscriber, GameEvent};
use crate::red_hat_boy::state_machine::RedHatBoyStateMachine;
use crate::red_hat_boy::RedHatBoy;
use barrier::Barrier;
use obstacle_mark::ObstacleMark;
use platform::Platform;

verus! {

/// Builds the pair of invisible jump marks that flank an obstacle.
pub trait ObstacleMarkFactory {
    /// The Companion's jump mark on the near side of the obstacle.
    fn mark_left(&self) -> ObstacleMark;

    /// The Companion's landing mark past the obstacle.
    fn mark_right(&self) -> ObstacleMark;
}

impl ObstacleMarkFactory for Barrier {
    fn mark_left(&self) -> ObstacleMark {
        Barrier::mark_left(self)
    }

    fn mark_right(&self) -> ObstacleMark {
        Barrier::mark_right(self)
    }
}

impl ObstacleMarkFactory for Platform {
    fn mark_left(&self) -> ObstacleMark {
        Platform::mark_left(self)
    }

    fn mark_right(&self) -> ObstacleMark {
        Platform::mark_right(self)
    }
}

/// One live obstacle of the course.
pub enum Obstacle {
    Barrier(Barrier),
    Mark(ObstacleMark),
    Platform(Platform),
}

impl Obstacle {
    /// The obstacle's identity.
    pub open spec fn spec_id(self) -> Seq<char> {
        match self {
            Obstacle::Barrier(b) => b.id@,
            Obstacle::Mark(m) => m.id@,
            Obstacle::Platform(p) => p.id@,
        }
    }

    /// The obstacle's right edge.
    pub open spec fn spec_right(self) -> int {
        match self {
            Obstacle::Barrier(b) => crate::rect::sat(b.image.bounding_box.spec_right()),
            Obstacle::Mark(m) => crate::rect::sat(m.position.x + 1),
            Obstacle::Platform(p) => if p.bounding_boxes@.len() == 0 {
                0
            } else {
                crate::rect::sat(p.bounding_boxes@.last().spec_right())
            },
        }
    }

    /// The Runner's machine after testing this obstacle.
    pub open spec fn spec_boy_after_check(self, boy: RedHatBoy) -> RedHatBoyStateMachine {
        match self {
            Obstacle::Barrier(b) => b.spec_boy_after_check(boy),
            Obstacle::Mark(_) => boy.state_machine,
            Obstacle::Platform(p) => p.spec_boy_after_check(boy),
        }
    }

    /// The events one collision pass publishes.
    pub open spec fn spec_check_events(self, boy: RedHatBoy) -> Seq<GameEvent> {
        match self {
            Obstacle::Barrier(b) => b.spec_check_events(boy),
            Obstacle::Mark(_) => seq![],
            Obstacle::Platform(p) => p.spec_check_events(boy),
        }
    }

    /// The events one navigate pass publishes.
    pub open spec fn spec_navigate_events(self, dog: Dog) -> Seq<GameEvent> {
        match self {
            Obstacle::Barrier(_) => seq![],
            Obstacle::Mark(m) => m.spec_navigate_events(dog),
            Obstacle::Platform(p) => p.spec_navigate_events(dog),
        }
    }

    /// The obstacle after a drained event.
    pub open spec fn spec_after_event(self, event: GameEvent) -> Obstacle {
        match self {
            Obstacle::Barrier(b) => Obstacle::Barrier(b),
            Obstacle::Mark(m) => Obstacle::Mark(m.spec_after_event(event)),
            Obstacle::Platform(p) => Obstacle::Platform(p.spec_after_event(event)),
        }
    }

    pub fn id(&self) -> (r: &String)
        ensures
            r@ == self.spec_id(),
    {
        match self {
            Obstacle::Barrier(b) => &b.id,
            Obstacle::Mark(m) => &m.id,
            Obstacle::Platform(p) => &p.id,
        }
    }

    pub fn right(&self) -> (r: i16)
        ensures
            r as int == self.spec_right(),
    {
        match self {
            Obstacle::Barrier(b) => b.right(),
            Obstacle::Mark(m) => m.right(),
            Obstacle::Platform(p) => p.right(),
        }
    }

    /// Tests the Runner against this obstacle; a hit either lands or
    /// knocks out the Runner, publishing `BoyHitsObstacle` on a knock-out.
    pub fn check_intersection(&self, boy: &mut RedHatBoy, events: &mut EventPublisher)
        requires
            old(boy).wf(),
        ensures
            final(boy).state_machine == self.spec_boy_after_check(*old(boy)),
            final(boy).sprite_sheet == old(boy).sprite_sheet,
            final(boy).wf(),
            final(events)@ == old(events)@ + self.spec_check_events(*old(boy)),
    {
        match self {
            Obstacle::Barrier(b) => b.check_intersection(boy, events),
            Obstacle::Mark(_) => {
                proof {
                    assert(events@ =~= old(events)@ + self.spec_check_events(*old(boy)));
                }
            },
            Obstacle::Platform(p) => p.check_intersection(boy, events),
        }
    }

    /// Tests the Companion against this obstacle's trigger geometry and
    /// publishes the edge events of this tick.
    pub fn navigate(&self, dog: &Dog, events: &mut EventPublisher)
        requires
            dog.wf(),
        ensures
            final(events)@ == old(events)@ + self.spec_navigate_events(*dog),
    {
        match self {
            Obstacle::Barrier(_) => {
                proof {
                    assert(events@ =~= old(events)@ + self.spec_navigate_events(*dog));
                }
            },
            Obstacle::Mark(m) => m.navigate(dog, events),
            Obstacle::Platform(p) => p.navigate(dog, events),
        }
    }

    /// `post` is `pre` shifted horizontally by `x`: same kind, same
    /// identity, same remembered state, every piece of geometry moved.
    pub open spec fn spec_moved(pre: Obstacle, post: Obstacle, x: i16) -> bool {
        match (pre, post) {
            (Obstacle::Barrier(b0), Obstacle::Barrier(b1)) => b1 == (Barrier {
                image: crate::image::Image {
                    bounding_box: crate::rect::Rect {
                        position: crate::rect::Point {
                            x: crate::rect::sat(b0.image.bounding_box.position.x + x) as i16,
                            y: b0.image.bounding_box.position.y,
                        },
                        ..b0.image.bounding_box
                    },
                },
                ..b0
            }),
            (Obstacle::Mark(m0), Obstacle::Mark(m1)) => m1 == (ObstacleMark {
                position: crate::rect::Point {
                    x: crate::rect::sat(m0.position.x + x) as i16,
                    y: m0.position.y,
                },
                ..m0
            }),
            (Obstacle::Platform(p0), Obstacle::Platform(p1)) => {
                &&& p1.id == p0.id
                &&& p1.has_dog == p0.has_dog
                &&& p1.position == (crate::rect::Point {
                    x: crate::rect::sat(p0.position.x + x) as i16,
                    y: p0.position.y,
                })
                &&& p1.bounding_boxes@.len() == p0.bounding_boxes@.len()
                &&& forall|i: int|
                    0 <= i < p0.bounding_boxes@.len() ==> p1.bounding_boxes@[i] == (
                    crate::rect::Rect {
                        position: crate::rect::Point {
                            x: crate::rect::sat(p0.bounding_boxes@[i].position.x + x) as i16,
                            y: p0.bounding_boxes@[i].position.y,
                        },
                        ..p0.bounding_boxes@[i]
                    })
            },
            _ => false,
        }
    }

    /// Shifts the obstacle horizontally by `x`.
    pub fn move_horizontally(&mut self, x: i16)
        ensures
            Obstacle::spec_moved(*old(self), *final(self), x),
    {
        match self {
            Obstacle::Barrier(b) => b.move_horizontally(x),
            Obstacle::Mark(m) => m.move_horizontally(x),
            Obstacle::Platform(p) => p.move_horizontally(x),
        }
    }

    /// Updates the obstacle's remembered state from a drained event; only
    /// marks and platforms react, and only to their own events.
    pub fn process_event(&mut self, event: &GameEvent)
        ensures
            *final(self) == old(self).spec_after_event(*event),
    {
        match self {
            Obstacle::Barrier(_) => {},
            Obstacle::Mark(m) => m.process_event(event),
            Obstacle::Platform(p) => p.process_event(event),
        }
    }
}

impl EventSubscriber for Obstacle {
    fn name(&self) -> String {
        self.id().clone()
    }

    fn process_event(&mut self, event: &GameEvent) {
        Obstacle::process_event(self, event);
    }
}

} // verus!
