//! An invisible, one-pixel-wide trigger zone beside an obstacle. It never
//! collides with the Runner; it only cues the Companion's jump decisions,
//! publishing a `DogHitMark` / `DogOffMark` event exactly on the rising and
//! falling edge of the intersection with the Companion's bounding box.

use vstd::prelude::*;
use crate::dog::Dog;
use crate::event_queue::{EventPublisher, GameEvent};
use crate::game;
use crate::rect::{sat, sat_add, sat_neg, Point, Rect};
use vstd::string::StringExecFns;

verus! {

/// Which side of its obstacle a mark guards, and so which travel direction
/// of the Companion it concerns.
#[derive(Clone, Copy, PartialEq, Eq, Structural, Debug)]
pub enum ObstacleMarkDirection {
    Left,
    Right,
}

/// The identity of a mark: its obstacle's identity with a side suffix.
pub open spec fn spec_mark_id(obstacle_id: Seq<char>, direction: ObstacleMarkDirection) -> Seq<
    char,
> {
    match direction {
        ObstacleMarkDirection::Left => obstacle_id + "_lm"@,
        ObstacleMarkDirection::Right => obstacle_id + "_rm"@,
    }
}

/// A jump mark for the Companion to navigate past an obstacle.
pub struct ObstacleMark {
    pub direction: ObstacleMarkDirection,
    /// Whether the Companion stood on the mark at the last drained edge
    /// event: the remembered state the edge trigger compares against.
    pub has_dog: bool,
    pub id: String,
    pub position: Point,
}

impl ObstacleMark {
    /// The trigger zone: one pixel wide, reaching from the mark's position
    /// down to the bottom of the playing field.
    pub open spec fn spec_mark(self) -> Rect {
        Rect {
            position: self.position,
            width: 1,
            height: sat(game::HEIGHT - self.position.y) as i16,
        }
    }

    /// The mark concerns the Companion only when the Companion travels
    /// toward it: a left mark while moving right, a right mark while moving
    /// left.
    pub open spec fn spec_relevant(self, dog: Dog) -> bool {
        match self.direction {
            ObstacleMarkDirection::Left => dog.state_machine.spec_context().spec_moving_right(),
            ObstacleMarkDirection::Right => dog.state_machine.spec_context().spec_moving_left(),
        }
    }

    pub open spec fn spec_is_on_mark(self, dog: Dog) -> bool {
        self.spec_relevant(dog) && dog.spec_bounding_box().spec_intersects(self.spec_mark())
    }

    /// The events one navigate pass publishes: `DogHitMark` on the rising
    /// edge of the intersection, `DogOffMark` on the falling edge, nothing
    /// while the intersection state is steady.
    pub open spec fn spec_navigate_events(self, dog: Dog) -> Seq<GameEvent> {
        if self.spec_is_on_mark(dog) && !self.has_dog {
            seq![GameEvent::DogHitMark { id: self.id }]
        } else if !self.spec_is_on_mark(dog) && self.has_dog {
            seq![GameEvent::DogOffMark { id: self.id }]
        } else {
            seq![]
        }
    }

    /// The mark after a drained event: it remembers the Companion standing
    /// on it exactly from its own `DogHitMark` to its own `DogOffMark`.
    pub open spec fn spec_after_event(self, event: GameEvent) -> ObstacleMark {
        match event {
            GameEvent::DogHitMark { id } => if id@ == self.id@ {
                ObstacleMark { has_dog: true, ..self }
            } else {
                self
            },
            GameEvent::DogOffMark { id } => if id@ == self.id@ {
                ObstacleMark { has_dog: false, ..self }
            } else {
                self
            },
            _ => self,
        }
    }

    pub fn new(position: Point, direction: ObstacleMarkDirection, obstacle_id: String) -> (r:
        ObstacleMark)
        ensures
            r.position == position,
            r.direction == direction,
            r.has_dog == false,
            r.id@ == spec_mark_id(obstacle_id@, direction),
    {
        let id = match direction {
            ObstacleMarkDirection::Left => obstacle_id.concat("_lm"),
            ObstacleMarkDirection::Right => obstacle_id.concat("_rm"),
        };
        ObstacleMark { direction, has_dog: false, id, position }
    }

    /// The trigger zone as a rectangle.
    pub fn mark(&self) -> (r: Rect)
        ensures
            r == self.spec_mark(),
    {
        let height = sat_add(game::HEIGHT, sat_neg(self.position.y));
        Rect::new(self.position, 1, height)
    }

    /// Shifts the mark horizontally by `x`.
    pub fn move_horizontally(&mut self, x: i16)
        ensures
            *final(self) == (ObstacleMark {
                position: Point {
                    x: sat(old(self).position.x + x) as i16,
                    y: old(self).position.y,
                },
                ..*old(self)
            }),
    {
        self.position.x = sat_add(self.position.x, x);
    }

    /// Tests the Companion against the trigger zone and publishes the edge
    /// events of this tick.
    pub fn navigate(&self, dog: &Dog, events: &mut EventPublisher)
        requires
            dog.wf(),
        ensures
            final(events)@ == old(events)@ + self.spec_navigate_events(*dog),
    {
        let is_relevant = match self.direction {
            ObstacleMarkDirection::Left => dog.moving_right(),
            ObstacleMarkDirection::Right => dog.moving_left(),
        };
        let is_on_mark = is_relevant && dog.bounding_box().intersects(&self.mark());

        if is_on_mark && !self.has_dog {
            events.publish(GameEvent::DogHitMark { id: self.id.clone() });
        } else if !is_on_mark && self.has_dog {
            events.publish(GameEvent::DogOffMark { id: self.id.clone() });
        }
        proof {
            assert(events@ =~= old(events)@ + self.spec_navigate_events(*dog));
        }
    }

    /// Updates the remembered intersection state from this mark's own edge
    /// events.
    pub fn process_event(&mut self, event: &GameEvent)
        ensures
            *final(self) == old(self).spec_after_event(*event),
    {
        match event {
            GameEvent::DogHitMark { id } => {
                if *id == self.id {
                    self.has_dog = true;
                }
            },
            GameEvent::DogOffMark { id } => {
                if *id == self.id {
                    self.has_dog = false;
                }
            },
            _ => {},
        }
    }

    pub fn right(&self) -> (r: i16)
        ensures
            r as int == sat(self.position.x + 1),
    {
        sat_add(self.position.x, 1)
    }
}

/// Law (edge-triggering idempotence): while the Companion's bounding box
/// keeps intersecting a mark tick after tick, exactly one `DogHitMark` is
/// published. The first navigate pass publishes it; once the mark's own
/// event has been drained back to it, the mark remembers the Companion and
/// every later pass publishes nothing while the intersection lasts.
pub proof fn lemma_mark_edge_triggering(mark: ObstacleMark, first: Dog, later: Dog)
    requires
        !mark.has_dog,
        mark.spec_is_on_mark(first),
        mark.spec_is_on_mark(later),
    ensures
        ({
            let hit = GameEvent::DogHitMark { id: mark.id };
            let remembered = mark.spec_after_event(hit);
            &&& mark.spec_navigate_events(first) == seq![hit]
            &&& remembered.has_dog
            &&& remembered.spec_navigate_events(later) == Seq::<GameEvent>::empty()
        }),
{
    let hit = GameEvent::DogHitMark { id: mark.id };
    let remembered = mark.spec_after_event(hit);
    assert(remembered.spec_is_on_mark(later) == mark.spec_is_on_mark(later));
    assert(remembered.spec_navigate_events(later) =~= Seq::<GameEvent>::empty());
}

} // verus!
