//! A floating platform: a box obstacle with up to three collision
//! sub-rectangles (left edge, walk surface, right edge). A Runner falling
//! onto it from above lands; any other collision knocks the Runner out.

use vstd::prelude::*;
use crate::dog::Dog;
use crate::event_queue::{EventPublisher, GameEvent};
use crate::obstacles::obstacle_mark::{ObstacleMark, ObstacleMarkDirection};
use crate::rect::{sat, sat_add, Point, Rect};
use crate::red_hat_boy::state_machine::{Event, RedHatBoyStateMachine};
use crate::red_hat_boy::RedHatBoy;

verus! {

/// Horizontal gap between a platform and its marks.
pub const PLATFORM_MARK_OFFSET: i16 = 80;

/// `rect` placed relative to `position`.
pub open spec fn spec_translated(rect: Rect, position: Point) -> Rect {
    Rect {
        position: Point {
            x: sat(rect.position.x + position.x) as i16,
            y: sat(rect.position.y + position.y) as i16,
        },
        width: rect.width,
        height: rect.height,
    }
}

/// The first of `boxes` that `bb` intersects, if any.
pub open spec fn spec_first_hit(boxes: Seq<Rect>, bb: Rect) -> Option<Rect>
    decreases boxes.len(),
{
    if boxes.len() == 0 {
        None
    } else if bb.spec_intersects(boxes[0]) {
        Some(boxes[0])
    } else {
        spec_first_hit(boxes.drop_first(), bb)
    }
}

proof fn lemma_first_hit_skip(boxes: Seq<Rect>, bb: Rect, i: int)
    requires
        0 <= i <= boxes.len(),
        forall|j: int| 0 <= j < i ==> !bb.spec_intersects(boxes[j]),
    ensures
        spec_first_hit(boxes, bb) == spec_first_hit(boxes.skip(i), bb),
    decreases i,
{
    if i > 0 {
        lemma_first_hit_skip(boxes.drop_first(), bb, i - 1);
        assert(boxes.drop_first().skip(i - 1) =~= boxes.skip(i));
        assert(boxes.skip(0) =~= boxes);
    } else {
        assert(boxes.skip(0) =~= boxes);
    }
}

pub struct Platform {
    pub position: Point,
    /// Collision sub-rectangles, in absolute coordinates.
    pub bounding_boxes: Vec<Rect>,
    /// Whether the Companion stood on the platform at the last drained edge
    /// event: the remembered state the edge trigger compares against.
    pub has_dog: bool,
    pub id: String,
}

impl Platform {
    /// The Companion's bounding box intersects some collision
    /// sub-rectangle.
    pub open spec fn spec_on_platform(self, dog: Dog) -> bool {
        exists|i: int|
            0 <= i < self.bounding_boxes@.len() && dog.spec_bounding_box().spec_intersects(
                #[trigger] self.bounding_boxes@[i],
            )
    }

    /// The Runner falls onto the platform from above: moving downward, with
    /// its sprite position above the platform's position.
    pub open spec fn spec_boy_lands(self, boy: RedHatBoy) -> bool {
        boy.state_machine.spec_context().velocity.y > 0
            && boy.state_machine.spec_context().position.y < self.position.y
    }

    pub open spec fn spec_boy_after_check(self, boy: RedHatBoy) -> RedHatBoyStateMachine {
        match spec_first_hit(self.bounding_boxes@, boy.spec_bounding_box()) {
            None => boy.state_machine,
            Some(hit) => if self.spec_boy_lands(boy) {
                boy.state_machine.spec_transition(Event::Land(hit.position.y))
            } else {
                boy.state_machine.spec_transition(Event::KnockOut)
            },
        }
    }

    /// The events one collision pass publishes: `BoyHitsObstacle` exactly
    /// when the Runner is knocked out here.
    pub open spec fn spec_check_events(self, boy: RedHatBoy) -> Seq<GameEvent> {
        match spec_first_hit(self.bounding_boxes@, boy.spec_bounding_box()) {
            None => seq![],
            Some(_) => if self.spec_boy_lands(boy) {
                seq![]
            } else {
                seq![GameEvent::BoyHitsObstacle]
            },
        }
    }

    /// The events one navigate pass publishes: `DogLandedOnPlatform` on the
    /// rising edge of the Companion standing on the platform,
    /// `DogExitsPlatform` on the falling edge, nothing while steady.
    pub open spec fn spec_navigate_events(self, dog: Dog) -> Seq<GameEvent> {
        if self.spec_on_platform(dog) && !self.has_dog {
            seq![GameEvent::DogLandedOnPlatform { id: self.id, platform_top: self.position.y }]
        } else if !self.spec_on_platform(dog) && self.has_dog {
            seq![GameEvent::DogExitsPlatform]
        } else {
            seq![]
        }
    }

    /// The platform after a drained event: it remembers the Companion
    /// standing on it exactly from its own `DogLandedOnPlatform` to the
    /// next `DogExitsPlatform`.
    pub open spec fn spec_after_event(self, event: GameEvent) -> Platform {
        match event {
            GameEvent::DogExitsPlatform => if self.has_dog {
                Platform { has_dog: false, ..self }
            } else {
                self
            },
            GameEvent::DogLandedOnPlatform { id, platform_top: _ } => if id@ == self.id@
                && !self.has_dog {
                Platform { has_dog: true, ..self }
            } else {
                self
            },
            _ => self,
        }
    }

    /// A platform at `position` whose collision sub-rectangles are
    /// `bounding_boxes` placed relative to `position`.
    pub fn new(id: String, position: Point, bounding_boxes: &Vec<Rect>) -> (r: Platform)
        ensures
            r.id == id,
            r.position == position,
            r.has_dog == false,
            r.bounding_boxes@.len() == bounding_boxes@.len(),
            forall|i: int|
                0 <= i < bounding_boxes@.len() ==> r.bounding_boxes@[i] == spec_translated(
                    bounding_boxes@[i],
                    position,
                ),
    {
        let mut translated: Vec<Rect> = Vec::new();
        let n = bounding_boxes.len();
        let mut i: usize = 0;
        while i < n
            invariant
                n == bounding_boxes@.len(),
                0 <= i <= n,
                translated@.len() == i,
                forall|j: int|
                    0 <= j < i ==> translated@[j] == spec_translated(
                        bounding_boxes@[j],
                        position,
                    ),
            decreases n - i,
        {
            let b = &bounding_boxes[i];
            translated.push(
                Rect::new_from_x_y(
                    sat_add(b.x(), position.x),
                    sat_add(b.y(), position.y),
                    b.width,
                    b.height,
                ),
            );
            i += 1;
        }
        Platform { position, bounding_boxes: translated, has_dog: false, id }
    }

    pub fn bounding_boxes(&self) -> (r: &Vec<Rect>)
        ensures
            *r == self.bounding_boxes,
    {
        &self.bounding_boxes
    }

    /// Tests the Runner against the collision sub-rectangles: falling onto
    /// the first intersecting one from above lands the Runner on its top;
    /// any other intersection knocks the Runner out and publishes
    /// `BoyHitsObstacle`.
    pub fn check_intersection(&self, boy: &mut RedHatBoy, events: &mut EventPublisher)
        requires
            old(boy).wf(),
        ensures
            final(boy).state_machine == self.spec_boy_after_check(*old(boy)),
            final(boy).sprite_sheet == old(boy).sprite_sheet,
            final(boy).wf(),
            final(events)@ == old(events)@ + self.spec_check_events(*old(boy)),
    {
        let bb = boy.bounding_box();
        let n = self.bounding_boxes.len();
        let mut i: usize = 0;
        while i < n
            invariant
                n == self.bounding_boxes@.len(),
                0 <= i <= n,
                forall|j: int| 0 <= j < i ==> !bb.spec_intersects(self.bounding_boxes@[j]),
                bb == old(boy).spec_bounding_box(),
                boy == old(boy),
                old(boy).wf(),
                events == old(events),
            decreases n - i,
        {
            if bb.intersects(&self.bounding_boxes[i]) {
                proof {
                    lemma_first_hit_skip(self.bounding_boxes@, bb, i as int);
                    assert(self.bounding_boxes@.skip(i as int)[0] == self.bounding_boxes@[
                        i as int
                    ]);
                }
                let hit_top = self.bounding_boxes[i].top();
                if boy.velocity_y() > 0 && boy.position_y() < self.position.y {
                    boy.land_on(hit_top);
                    proof {
                        crate::red_hat_boy::state_machine::lemma_transition_preserves_wf(
                            old(boy).state_machine,
                            Event::Land(hit_top),
                        );
                        assert(events@ =~= old(events)@ + self.spec_check_events(*old(boy)));
                    }
                } else {
                    boy.knock_out();
                    events.publish(GameEvent::BoyHitsObstacle);
                    proof {
                        crate::red_hat_boy::state_machine::lemma_transition_preserves_wf(
                            old(boy).state_machine,
                            Event::KnockOut,
                        );
                        assert(events@ =~= old(events)@ + self.spec_check_events(*old(boy)));
                    }
                }
                return ;
            }
            i += 1;
        }
        proof {
            lemma_first_hit_skip(self.bounding_boxes@, bb, n as int);
            assert(events@ =~= old(events)@ + self.spec_check_events(*old(boy)));
        }
    }

    /// Tests the Companion against the platform's footprint and publishes
    /// the edge events of this tick.
    pub fn navigate(&self, dog: &Dog, events: &mut EventPublisher)
        requires
            dog.wf(),
        ensures
            final(events)@ == old(events)@ + self.spec_navigate_events(*dog),
    {
        let is_on_platform = self.on_platform(dog);

        if is_on_platform && !self.has_dog {
            events.publish(
                GameEvent::DogLandedOnPlatform { id: self.id.clone(), platform_top: self.position.y },
            );
        } else if !is_on_platform && self.has_dog {
            events.publish(GameEvent::DogExitsPlatform);
        }
        proof {
            assert(events@ =~= old(events)@ + self.spec_navigate_events(*dog));
        }
    }

    /// Updates the remembered standing state from this platform's own edge
    /// events.
    pub fn process_event(&mut self, event: &GameEvent)
        ensures
            *final(self) == old(self).spec_after_event(*event),
    {
        match event {
            GameEvent::DogExitsPlatform => {
                if self.has_dog {
                    self.has_dog = false;
                }
            },
            GameEvent::DogLandedOnPlatform { id, platform_top: _ } => {
                if *id == self.id && !self.has_dog {
                    self.has_dog = true;
                }
            },
            _ => {},
        }
    }

    /// Shifts the platform and its sub-rectangles horizontally by `x`.
    pub fn move_horizontally(&mut self, x: i16)
        ensures
            final(self).id == old(self).id,
            final(self).has_dog == old(self).has_dog,
            final(self).position == (Point {
                x: sat(old(self).position.x + x) as i16,
                y: old(self).position.y,
            }),
            final(self).bounding_boxes@.len() == old(self).bounding_boxes@.len(),
            forall|i: int|
                0 <= i < old(self).bounding_boxes@.len() ==> final(self).bounding_boxes@[i] == (
                Rect {
                    position: Point {
                        x: sat(old(self).bounding_boxes@[i].position.x + x) as i16,
                        y: old(self).bounding_boxes@[i].position.y,
                    },
                    ..old(self).bounding_boxes@[i]
                }),
    {
        self.position.x = sat_add(self.position.x, x);
        let n = self.bounding_boxes.len();
        let mut i: usize = 0;
        while i < n
            invariant
                n == self.bounding_boxes@.len(),
                0 <= i <= n,
                self.position == (Point {
                    x: sat(old(self).position.x + x) as i16,
                    y: old(self).position.y,
                }),
                self.id == old(self).id,
                self.has_dog == old(self).has_dog,
                forall|j: int|
                    i <= j < n ==> self.bounding_boxes@[j] == old(self).bounding_boxes@[j],
                forall|j: int|
                    0 <= j < i ==> self.bounding_boxes@[j] == (Rect {
                        position: Point {
                            x: sat(old(self).bounding_boxes@[j].position.x + x) as i16,
                            y: old(self).bounding_boxes@[j].position.y,
                        },
                        ..old(self).bounding_boxes@[j]
                    }),
            decreases n - i,
        {
            let b = self.bounding_boxes[i];
            let moved = Rect {
                position: Point { x: sat_add(b.position.x, x), y: b.position.y },
                ..b
            };
            self.bounding_boxes[i] = moved;
            i += 1;
        }
    }

    /// The right edge of the rightmost sub-rectangle (the platform's own
    /// right edge), or 0 for a platform without collision boxes.
    pub fn right(&self) -> (r: i16)
        ensures
            self.bounding_boxes@.len() == 0 ==> r == 0,
            self.bounding_boxes@.len() > 0 ==> r as int == sat(
                self.bounding_boxes@.last().spec_right(),
            ),
    {
        if self.bounding_boxes.len() == 0 {
            0
        } else {
            self.bounding_boxes[self.bounding_boxes.len() - 1].right()
        }
    }

    fn on_platform(&self, dog: &Dog) -> (r: bool)
        requires
            dog.wf(),
        ensures
            r == self.spec_on_platform(*dog),
    {
        let bb = dog.bounding_box();
        let n = self.bounding_boxes.len();
        let mut i: usize = 0;
        while i < n
            invariant
                n == self.bounding_boxes@.len(),
                0 <= i <= n,
                bb == dog.spec_bounding_box(),
                forall|j: int| 0 <= j < i ==> !bb.spec_intersects(self.bounding_boxes@[j]),
            decreases n - i,
        {
            if bb.intersects(&self.bounding_boxes[i]) {
                return true;
            }
            i += 1;
        }
        false
    }

    /// The Companion's jump mark on the near side of the platform.
    pub fn mark_left(&self) -> (r: ObstacleMark)
        ensures
            r.position == (Point {
                x: sat(self.position.x - PLATFORM_MARK_OFFSET) as i16,
                y: self.position.y,
            }),
            r.direction == ObstacleMarkDirection::Left,
            r.has_dog == false,
            r.id@ == crate::obstacles::obstacle_mark::spec_mark_id(
                self.id@,
                ObstacleMarkDirection::Left,
            ),
    {
        ObstacleMark::new(
            Point { x: sat_add(self.position.x, -PLATFORM_MARK_OFFSET), y: self.position.y },
            ObstacleMarkDirection::Left,
            self.id.clone(),
        )
    }

    /// The Companion's landing mark past the platform.
    pub fn mark_right(&self) -> (r: ObstacleMark)
        ensures
            ({
                let edge: int = if self.bounding_boxes@.len() == 0 {
                    0
                } else {
                    sat(self.bounding_boxes@.last().spec_right())
                };
                r.position == (Point {
                    x: sat(edge + PLATFORM_MARK_OFFSET) as i16,
                    y: self.position.y,
                })
            }),
            r.direction == ObstacleMarkDirection::Right,
            r.has_dog == false,
            r.id@ == crate::obstacles::obstacle_mark::spec_mark_id(
                self.id@,
                ObstacleMarkDirection::Right,
            ),
    {
        ObstacleMark::new(
            Point { x: sat_add(self.right(), PLATFORM_MARK_OFFSET), y: self.position.y },
            ObstacleMarkDirection::Right,
            self.id.clone(),
        )
    }
}

} // verus!
