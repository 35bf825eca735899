//! The Companion: the autonomous character that patrols, flees and reacts
//! to the Runner's course. Wraps the Companion's state machine together
//! with its sprite sheet.

pub mod context;
pub mod state_machine;
pub mod states;

use vstd::prelude::*;
use crate::event_queue::{EventPublisher, EventSubscriber, GameEvent};
use crate::rect::{sat, sat_add, Point, Rect};
use crate::sheet::{Cell, Sheet};
use state_machine::{spec_dog_frame_key, DogStateMachine, Event};
use states::DogState;
use vstd::string::StringExecFns;

verus! {

/// Vertical inset of the gameplay bounding box inside the sprite box.
pub const DOG_Y_OFFSET: i16 = 8;

/// Total width taken off the sprite box to form the gameplay bounding box.
pub const DOG_WIDTH_OFFSET: i16 = 50;

/// Horizontal inset of the bounding box while the Companion faces left.
pub const DOG_X_OFFSET_LEFT: i16 = 20;

/// Horizontal inset of the bounding box while the Companion faces right.
pub const DOG_X_OFFSET_RIGHT: i16 = 35;

#[verifier::ext_equal]
pub struct Dog {
    pub sprite_sheet: Sheet,
    pub state_machine: DogStateMachine,
}

impl Dog {
    /// The command a game event asks of the Companion's machine, if any.
    pub open spec fn spec_command(event: GameEvent) -> Option<Event> {
        match event {
            GameEvent::BoyHitsObstacle => Some(Event::Worry),
            GameEvent::DogExitsPlatform => Some(Event::OffPlatform),
            GameEvent::DogHitMark { .. } => Some(Event::Jump),
            GameEvent::DogLandedOnGround => Some(Event::LandOnGround),
            GameEvent::DogLandedOnPlatform { id: _, platform_top } => Some(
                Event::LandOn(platform_top),
            ),
            GameEvent::DogTooClose => Some(Event::TurnAround),
            GameEvent::DogTooFar => Some(Event::TurnAround),
            GameEvent::GameStarted => Some(Event::Flee),
            GameEvent::DogOffMark { .. } => None,
        }
    }

    /// The machine after reacting to a game event.
    pub open spec fn spec_after_event(self, event: GameEvent) -> DogStateMachine {
        match Dog::spec_command(event) {
            Some(command) => self.state_machine.spec_transition(command),
            None => self.state_machine,
        }
    }

    /// The sheet resolves every frame name any state of the machine can
    /// show.
    pub open spec fn sheet_complete(self) -> bool {
        &&& forall|i: int|
            0 <= i <= 20 ==> self.sprite_sheet.has_cell(
                #[trigger] spec_dog_frame_key(state_machine::RUN_FRAME_PREFIX@, i),
            )
        &&& forall|i: int|
            0 <= i <= 20 ==> self.sprite_sheet.has_cell(
                #[trigger] spec_dog_frame_key(state_machine::JUMP_FRAME_PREFIX@, i),
            )
    }

    /// The Companion is well-formed: the frame counter respects the frame
    /// range and the sheet covers every frame.
    pub open spec fn wf(self) -> bool {
        self.state_machine.wf() && self.sheet_complete()
    }

    /// The sprite cell of the current frame.
    pub open spec fn spec_current_sprite(self) -> Cell {
        self.sprite_sheet.spec_cell(self.state_machine.spec_frame_name()).unwrap()
    }

    /// The rectangle the current sprite occupies on screen.
    pub open spec fn spec_destination_box(self) -> Rect {
        let ctx = self.state_machine.spec_context();
        let sprite = self.spec_current_sprite();
        Rect {
            position: Point {
                x: sat(ctx.position.x + sprite.sprite_source_size.x) as i16,
                y: sat(ctx.position.y + sprite.sprite_source_size.y) as i16,
            },
            width: sprite.frame.w,
            height: sprite.frame.h,
        }
    }

    /// The gameplay bounding box: the destination box inset by the fixed
    /// offsets; the horizontal inset depends on the direction faced.
    pub open spec fn spec_bounding_box(self) -> Rect {
        let dest = self.spec_destination_box();
        let x_offset: i16 = if self.state_machine.spec_context().spec_moving_left() {
            DOG_X_OFFSET_LEFT
        } else {
            DOG_X_OFFSET_RIGHT
        };
        Rect {
            position: Point {
                x: sat(dest.position.x + x_offset) as i16,
                y: sat(dest.position.y + DOG_Y_OFFSET) as i16,
            },
            width: sat(dest.width - DOG_WIDTH_OFFSET) as i16,
            height: sat(dest.height - DOG_Y_OFFSET) as i16,
        }
    }

    pub fn new(sprite_sheet: Sheet) -> (r: Dog)
        ensures
            r.sprite_sheet == sprite_sheet,
            r.state_machine matches DogStateMachine::Running(s) && s.context
                == context::DogContext::spec_initial(),
    {
        Dog {
            sprite_sheet,
            state_machine: DogStateMachine::Running(DogState::<states::running::Running>::new()),
        }
    }

    /// A fresh Companion built from the same sprite sheet.
    pub fn reset(dog: Dog) -> (r: Dog)
        ensures
            r.sprite_sheet == dog.sprite_sheet,
            r.state_machine matches DogStateMachine::Running(s) && s.context
                == context::DogContext::spec_initial(),
    {
        Dog::new(dog.sprite_sheet)
    }

    pub fn moving_left(&self) -> (r: bool)
        ensures
            r == self.state_machine.spec_context().spec_moving_left(),
    {
        self.state_machine.context().moving_left()
    }

    pub fn moving_right(&self) -> (r: bool)
        ensures
            r == self.state_machine.spec_context().spec_moving_right(),
    {
        self.state_machine.context().moving_right()
    }

    pub fn moving_up(&self) -> (r: bool)
        ensures
            r == (self.state_machine.spec_context().velocity.y <= 0),
    {
        self.state_machine.context().velocity.y <= 0
    }

    /// The sprite cell of the current frame.
    pub fn current_sprite(&self) -> (r: Option<&Cell>)
        requires
            self.wf(),
        ensures
            r matches Some(c) && *c == self.spec_current_sprite(),
    {
        let name = self.state_machine.frame_name();
        self.sprite_sheet.cell(&name)
    }

    pub fn destination_box(&self) -> (r: Rect)
        requires
            self.wf(),
        ensures
            r == self.spec_destination_box(),
    {
        let sprite = *self.current_sprite().unwrap();
        let ctx = self.state_machine.context();
        Rect::new_from_x_y(
            sat_add(ctx.position.x, sprite.sprite_source_size.x),
            sat_add(ctx.position.y, sprite.sprite_source_size.y),
            sprite.frame.w,
            sprite.frame.h,
        )
    }

    pub fn bounding_box(&self) -> (r: Rect)
        requires
            self.wf(),
        ensures
            r == self.spec_bounding_box(),
    {
        let x_offset: i16 = if self.moving_left() {
            DOG_X_OFFSET_LEFT
        } else {
            DOG_X_OFFSET_RIGHT
        };
        let dest = self.destination_box();
        let mut bounding_box = dest;
        bounding_box.set_x(sat_add(dest.position.x, x_offset));
        bounding_box.width = sat_add(dest.width, -DOG_WIDTH_OFFSET);
        bounding_box.position.y = sat_add(dest.position.y, DOG_Y_OFFSET);
        bounding_box.height = sat_add(dest.height, -DOG_Y_OFFSET);

        bounding_box
    }

    /// One tick of physics and animation, publishing this tick's landing
    /// and patrol events.
    pub fn update(&mut self, events: &mut EventPublisher)
        ensures
            final(self).state_machine == old(self).state_machine.spec_transition(Event::Update),
            final(self).sprite_sheet == old(self).sprite_sheet,
            final(events)@ == old(events)@ + old(self).state_machine.spec_update_events(),
    {
        self.state_machine = self.state_machine.update(events);
    }

    /// Reacts to a drained game event by handing the derived command to the
    /// machine; events that ask nothing of the Companion are ignored.
    pub fn process_event(&mut self, event: &GameEvent)
        ensures
            final(self).state_machine == old(self).spec_after_event(*event),
            final(self).sprite_sheet == old(self).sprite_sheet,
    {
        match event {
            GameEvent::BoyHitsObstacle => self.transition(Event::Worry),
            GameEvent::DogExitsPlatform => self.transition(Event::OffPlatform),
            GameEvent::DogHitMark { .. } => self.transition(Event::Jump),
            GameEvent::DogLandedOnGround => self.transition(Event::LandOnGround),
            GameEvent::DogLandedOnPlatform { id: _, platform_top } => {
                let top = *platform_top;
                self.transition(Event::LandOn(top))
            },
            GameEvent::DogTooClose => self.transition(Event::TurnAround),
            GameEvent::DogTooFar => self.transition(Event::TurnAround),
            GameEvent::GameStarted => self.transition(Event::Flee),
            GameEvent::DogOffMark { .. } => (),
        }
    }

    fn transition(&mut self, event: Event)
        requires
            !(event matches Event::Update),
        ensures
            final(self).state_machine == old(self).state_machine.spec_transition(event),
            final(self).sprite_sheet == old(self).sprite_sheet,
    {
        self.state_machine = self.state_machine.transition(event);
    }
}

impl EventSubscriber for Dog {
    fn name(&self) -> String {
        String::from_str("Dog")
    }

    fn process_event(&mut self, event: &GameEvent) {
        Dog::process_event(self, event);
    }
}

} // verus!
