//! The Runner: the player-controlled character. Wraps the Runner's state
//! machine together with its sprite sheet and exposes per-tick commands.

pub mod context;
pub mod state_machine;
pub mod states;

use vstd::prelude::*;
use crate::rect::{sat, sat_add, Point, Rect};
use crate::sheet::{Cell, Sheet};
use crate::text;
use state_machine::{Event, RedHatBoyStateMachine};
use vstd::string::StringExecFns;

verus! {

/// Horizontal inset of the gameplay bounding box inside the sprite box.
pub const BOY_X_OFFSET: i16 = 18;

/// Vertical inset of the gameplay bounding box inside the sprite box.
pub const BOY_Y_OFFSET: i16 = 14;

/// Total width taken off the sprite box to form the gameplay bounding box.
pub const BOY_WIDTH_OFFSET: i16 = 28;

/// The full sprite-sheet frame name of animation frame `index` (counted
/// from 1) of the animation `base`: the base name, a space, the index in
/// parentheses, and the `.png` suffix.
pub open spec fn spec_frame_key(base: Seq<char>, index: int) -> Seq<char> {
    base + " ("@ + text::spec_decimal(index) + ").png"@
}

#[verifier::ext_equal]
pub struct RedHatBoy {
    pub sprite_sheet: Sheet,
    pub state_machine: RedHatBoyStateMachine,
}

impl RedHatBoy {
    /// The frame name the Runner currently shows: the active state's
    /// animation name and the current animation frame, counted from 1.
    pub open spec fn spec_frame_name(self) -> Seq<char> {
        spec_frame_key(
            self.state_machine.spec_frame_base(),
            self.state_machine.spec_context().frame as int / 3 + 1,
        )
    }

    /// The sheet resolves every frame name any state of the machine can
    /// show.
    pub open spec fn sheet_complete(self) -> bool {
        &&& forall|i: int|
            1 <= i <= 10 ==> self.sprite_sheet.has_cell(
                #[trigger] spec_frame_key(states::IDLE_FRAME_NAME@, i),
            )
        &&& forall|i: int|
            1 <= i <= 12 ==> self.sprite_sheet.has_cell(
                #[trigger] spec_frame_key(states::JUMP_FRAME_NAME@, i),
            )
        &&& forall|i: int|
            1 <= i <= 8 ==> self.sprite_sheet.has_cell(
                #[trigger] spec_frame_key(states::RUN_FRAME_NAME@, i),
            )
        &&& forall|i: int|
            1 <= i <= 5 ==> self.sprite_sheet.has_cell(
                #[trigger] spec_frame_key(states::SLIDE_FRAME_NAME@, i),
            )
        &&& forall|i: int|
            1 <= i <= 10 ==> self.sprite_sheet.has_cell(
                #[trigger] spec_frame_key(states::DEAD_FRAME_NAME@, i),
            )
    }

    /// The Runner is well-formed: the frame counter respects the active
    /// state's ceiling and the sheet covers every frame.
    pub open spec fn wf(self) -> bool {
        self.state_machine.wf() && self.sheet_complete()
    }

    /// The sprite cell of the current frame.
    pub open spec fn spec_current_sprite(self) -> Cell {
        self.sprite_sheet.spec_cell(self.spec_frame_name()).unwrap()
    }

    /// The rectangle the current sprite occupies on screen: the machine's
    /// position offset by the sprite's source offset, at the sprite's size.
    pub open spec fn spec_destination_box(self) -> Rect {
        let ctx = self.state_machine.spec_context();
        let sprite = self.spec_current_sprite();
        Rect {
            position: Point {
                x: sat(ctx.position.x + sprite.sprite_source_size.x) as i16,
                y: sat(ctx.position.y + sprite.sprite_source_size.y) as i16,
            },
            width: sprite.frame.w,
            height: sprite.frame.h,
        }
    }

    /// The gameplay bounding box: the destination box inset by the fixed
    /// per-entity offsets, so that near-miss visual overlap does not count
    /// as a collision.
    pub open spec fn spec_bounding_box(self) -> Rect {
        let dest = self.spec_destination_box();
        Rect {
            position: Point {
                x: sat(dest.position.x + BOY_X_OFFSET) as i16,
                y: sat(dest.position.y + BOY_Y_OFFSET) as i16,
            },
            width: sat(dest.width - BOY_WIDTH_OFFSET) as i16,
            height: sat(dest.height - BOY_Y_OFFSET) as i16,
        }
    }

    pub fn new(sprite_sheet: Sheet) -> (r: RedHatBoy)
        ensures
            r.sprite_sheet == sprite_sheet,
            r.state_machine matches RedHatBoyStateMachine::Idle(s) && s.context
                == context::RedHatBoyContext::spec_initial(),
    {
        RedHatBoy {
            sprite_sheet,
            state_machine: RedHatBoyStateMachine::Idle(
                states::RedHatBoyState::<states::Idle>::new(),
            ),
        }
    }

    /// A fresh Runner built from the same sprite sheet.
    pub fn reset(boy: RedHatBoy) -> (r: RedHatBoy)
        ensures
            r.sprite_sheet == boy.sprite_sheet,
            r.state_machine matches RedHatBoyStateMachine::Idle(s) && s.context
                == context::RedHatBoyContext::spec_initial(),
    {
        RedHatBoy::new(boy.sprite_sheet)
    }

    pub fn frame_name(&self) -> (r: String)
        ensures
            r@ == self.spec_frame_name(),
    {
        let base = self.state_machine.frame_name();
        let index = self.state_machine.context().frame as u32 / 3 + 1;
        proof {
            reveal_strlit(" (");
            reveal_strlit(").png");
        }
        let s = String::from_str(base).concat(" (").concat(
            text::decimal_string(index).as_str(),
        ).concat(").png");
        proof {
            assert(s@ =~= self.spec_frame_name());
        }
        s
    }

    /// The sprite cell of the current frame.
    pub fn current_sprite(&self) -> (r: Option<&Cell>)
        requires
            self.wf(),
        ensures
            r matches Some(c) && *c == self.spec_current_sprite(),
    {
        let name = self.frame_name();
        self.sprite_sheet.cell(&name)
    }

    pub fn destination_box(&self) -> (r: Rect)
        requires
            self.wf(),
        ensures
            r == self.spec_destination_box(),
    {
        let sprite = *self.current_sprite().unwrap();
        let ctx = self.state_machine.context();
        Rect::new_from_x_y(
            sat_add(ctx.position.x, sprite.sprite_source_size.x),
            sat_add(ctx.position.y, sprite.sprite_source_size.y),
            sprite.frame.w,
            sprite.frame.h,
        )
    }

    pub fn bounding_box(&self) -> (r: Rect)
        requires
            self.wf(),
        ensures
            r == self.spec_bounding_box(),
    {
        let dest = self.destination_box();
        let mut bounding_box = dest;
        bounding_box.set_x(sat_add(dest.position.x, BOY_X_OFFSET));
        bounding_box.width = sat_add(dest.width, -BOY_WIDTH_OFFSET);
        bounding_box.position.y = sat_add(dest.position.y, BOY_Y_OFFSET);
        bounding_box.height = sat_add(dest.height, -BOY_Y_OFFSET);

        bounding_box
    }

    /// `Jump` command from input handling.
    pub fn jump(&mut self)
        ensures
            final(self).state_machine == old(self).state_machine.spec_transition(Event::Jump),
            final(self).sprite_sheet == old(self).sprite_sheet,
    {
        self.state_machine = self.state_machine.transition(Event::Jump);
    }

    /// `KnockOut` event from a collision.
    pub fn knock_out(&mut self)
        ensures
            final(self).state_machine == old(self).state_machine.spec_transition(Event::KnockOut),
            final(self).sprite_sheet == old(self).sprite_sheet,
    {
        self.state_machine = self.state_machine.transition(Event::KnockOut);
    }

    /// `Land(position)` event from a collision with a platform top.
    pub fn land_on(&mut self, position: i16)
        ensures
            final(self).state_machine == old(self).state_machine.spec_transition(
                Event::Land(position),
            ),
            final(self).sprite_sheet == old(self).sprite_sheet,
    {
        self.state_machine = self.state_machine.transition(Event::Land(position));
    }

    /// `Run` command from input handling.
    pub fn run_right(&mut self)
        ensures
            final(self).state_machine == old(self).state_machine.spec_transition(Event::Run),
            final(self).sprite_sheet == old(self).sprite_sheet,
    {
        self.state_machine = self.state_machine.transition(Event::Run);
    }

    /// `Slide` command from input handling.
    pub fn slide(&mut self)
        ensures
            final(self).state_machine == old(self).state_machine.spec_transition(Event::Slide),
            final(self).sprite_sheet == old(self).sprite_sheet,
    {
        self.state_machine = self.state_machine.transition(Event::Slide);
    }

    /// One tick of physics and animation.
    pub fn update(&mut self)
        ensures
            final(self).state_machine == old(self).state_machine.spec_transition(Event::Update),
            final(self).sprite_sheet == old(self).sprite_sheet,
    {
        self.state_machine = self.state_machine.update();
    }

    pub fn position_y(&self) -> (r: i16)
        ensures
            r == self.state_machine.spec_context().position.y,
    {
        self.state_machine.context().position.y
    }

    pub fn velocity_y(&self) -> (r: i16)
        ensures
            r == self.state_machine.spec_context().velocity.y,
    {
        self.state_machine.context().velocity.y
    }

    pub fn walking_speed(&self) -> (r: i16)
        ensures
            r == self.state_machine.spec_context().velocity.x,
    {
        self.state_machine.context().velocity.x
    }

    /// Whether the Runner is in motion: running, jumping or sliding.
    pub fn is_running(&self) -> (r: bool)
        ensures
            r == self.state_machine.spec_is_running(),
    {
        self.state_machine.is_running()
    }

    /// Whether the Runner has reached the terminal knocked-out state.
    pub fn knocked_out(&self) -> (r: bool)
        ensures
            r == (self.state_machine matches RedHatBoyStateMachine::KnockedOut(_)),
    {
        self.state_machine.knocked_out()
    }
}

} // verus!
