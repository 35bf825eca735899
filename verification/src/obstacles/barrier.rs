//! A static box obstacle (a stone): any collision with a moving Runner is a
//! knock-out.

use vstd::prelude::*;
use crate::event_queue::{EventPublisher, GameEvent};
use crate::image::Image;
use crate::obstacles::obstacle_mark::{ObstacleMark, ObstacleMarkDirection};
use crate::rect::{sat, Point};
use crate::red_hat_boy::state_machine::{Event, RedHatBoyStateMachine};
use crate::red_hat_boy::RedHatBoy;

verus! {

/// Horizontal gap between a barrier and its marks.
pub const BARRIER_MARK_OFFSET: i16 = 20;

/// How far above the barrier its right mark starts, so the mark is tall
/// enough to reach over a neighboring platform.
pub const BARRIER_MARK_RIGHT_RAISE: i16 = 200;

pub struct Barrier {
    pub id: String,
    pub image: Image,
}

impl Barrier {
    /// The Runner's machine after testing this barrier: knocked out on any
    /// intersection while in motion.
    pub open spec fn spec_boy_hit(self, boy: RedHatBoy) -> bool {
        boy.state_machine.spec_is_running() && boy.spec_bounding_box().spec_intersects(
            self.image.bounding_box,
        )
    }

    pub open spec fn spec_boy_after_check(self, boy: RedHatBoy) -> RedHatBoyStateMachine {
        if self.spec_boy_hit(boy) {
            boy.state_machine.spec_transition(Event::KnockOut)
        } else {
            boy.state_machine
        }
    }

    /// The events one collision pass publishes: `BoyHitsObstacle` exactly
    /// when the Runner is knocked out here.
    pub open spec fn spec_check_events(self, boy: RedHatBoy) -> Seq<GameEvent> {
        if self.spec_boy_hit(boy) {
            seq![GameEvent::BoyHitsObstacle]
        } else {
            seq![]
        }
    }

    pub fn new(id: String, image: Image) -> (r: Barrier)
        ensures
            r.id == id,
            r.image == image,
    {
        Barrier { id, image }
    }

    /// Tests the Runner against this barrier; an intersection while the
    /// Runner is in motion knocks it out and publishes `BoyHitsObstacle`.
    pub fn check_intersection(&self, boy: &mut RedHatBoy, events: &mut EventPublisher)
        requires
            old(boy).wf(),
        ensures
            final(boy).state_machine == self.spec_boy_after_check(*old(boy)),
            final(boy).sprite_sheet == old(boy).sprite_sheet,
            final(boy).wf(),
            final(events)@ == old(events)@ + self.spec_check_events(*old(boy)),
    {
        if boy.is_running() && boy.bounding_box().intersects(self.image.bounding_box()) {
            boy.knock_out();
            events.publish(GameEvent::BoyHitsObstacle);
        }
        proof {
            crate::red_hat_boy::state_machine::lemma_transition_preserves_wf(
                old(boy).state_machine,
                Event::KnockOut,
            );
            assert(events@ =~= old(events)@ + self.spec_check_events(*old(boy)));
        }
    }

    /// Shifts the barrier horizontally by `x`.
    pub fn move_horizontally(&mut self, x: i16)
        ensures
            final(self).id == old(self).id,
            final(self).image.bounding_box.position.x as int == sat(
                old(self).image.bounding_box.position.x + x,
            ),
            final(self).image.bounding_box.position.y == old(self).image.bounding_box.position.y,
            final(self).image.bounding_box.width == old(self).image.bounding_box.width,
            final(self).image.bounding_box.height == old(self).image.bounding_box.height,
    {
        self.image.move_horizontally(x);
    }

    pub fn right(&self) -> (r: i16)
        ensures
            r as int == sat(self.image.bounding_box.spec_right()),
    {
        self.image.right()
    }

    /// The Companion's jump mark on the near side of the barrier.
    pub fn mark_left(&self) -> (r: ObstacleMark)
        ensures
            r.position == (Point {
                x: sat(self.image.bounding_box.position.x - BARRIER_MARK_OFFSET) as i16,
                y: self.image.bounding_box.position.y,
            }),
            r.direction == ObstacleMarkDirection::Left,
            r.has_dog == false,
            r.id@ == crate::obstacles::obstacle_mark::spec_mark_id(
                self.id@,
                ObstacleMarkDirection::Left,
            ),
    {
        ObstacleMark::new(
            Point {
                x: crate::rect::sat_add(self.image.bounding_box().x(), -BARRIER_MARK_OFFSET),
                y: self.image.bounding_box().y(),
            },
            ObstacleMarkDirection::Left,
            self.id.clone(),
        )
    }

    /// The Companion's landing mark past the barrier, raised so it reaches
    /// over a neighboring platform.
    pub fn mark_right(&self) -> (r: ObstacleMark)
        ensures
            r.position == (Point {
                x: sat(sat(self.image.bounding_box.spec_right()) + BARRIER_MARK_OFFSET) as i16,
                y: sat(self.image.bounding_box.position.y - BARRIER_MARK_RIGHT_RAISE) as i16,
            }),
            r.direction == ObstacleMarkDirection::Right,
            r.has_dog == false,
            r.id@ == crate::obstacles::obstacle_mark::spec_mark_id(
                self.id@,
                ObstacleMarkDirection::Right,
            ),
    {
        ObstacleMark::new(
            Point {
                x: crate::rect::sat_add(self.image.right(), BARRIER_MARK_OFFSET),
                y: crate::rect::sat_add(
                    self.image.bounding_box().y(),
                    -BARRIER_MARK_RIGHT_RAISE,
                ),
            },
            ObstacleMarkDirection::Right,
            self.id.clone(),
        )
    }
}

} // verus!
