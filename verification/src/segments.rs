//! The segment factory: procedurally builds batches of obstacles from a
//! fixed catalog of named shapes, at a given horizontal offset, with a
//! monotonically increasing obstacle-id counter. Platforms and stones come
//! with invisible jump marks for the Companion where the shape calls for
//! them.

use vstd::prelude::*;
use crate::image::Image;
use crate::obstacles::barrier::{Barrier, BARRIER_MARK_OFFSET, BARRIER_MARK_RIGHT_RAISE};
use crate::obstacles::obstacle_mark::{spec_mark_id, ObstacleMarkDirection};
use crate::obstacles::platform::{spec_translated, Platform, PLATFORM_MARK_OFFSET};
use crate::obstacles::Obstacle;
use crate::rect::{sat, sat_add, Point, Rect};
use crate::text;
use vstd::string::StringExecFns;

verus! {

/// Offset of the first platform of the opening segment.
pub const FIRST_PLATFORM: i16 = 240;

pub const HIGH_PLATFORM: i16 = 375;

pub const LOW_PLATFORM: i16 = 420;

/// Vertical position of a stone lying on the ground.
pub const STONE_ON_GROUND: i16 = 546;

/// Vertical position of a stone lying on a platform.
pub const STONE_ON_PLATFORM: i16 = 322;

/// How many shapes the catalog holds.
pub const SEGMENT_KINDS: i32 = 6;

/// The catalog index of the deterministic opening segment.
pub const FIRST_SEGMENT_KIND: i32 = 4;

/// The three collision sub-rectangles of a floating platform, relative to
/// its position: left edge, middle walk surface, right edge.
pub open spec fn spec_platform_boxes() -> Seq<Rect> {
    seq![
        Rect { position: Point { x: 0, y: 0 }, width: 60, height: 54 },
        Rect { position: Point { x: 60, y: 0 }, width: 264, height: 93 },
        Rect { position: Point { x: 324, y: 0 }, width: 60, height: 54 },
    ]
}

/// The right edge of a floating platform placed at `position`.
pub open spec fn spec_platform_right(position: Point) -> int {
    sat(spec_translated(spec_platform_boxes()[2], position).spec_right())
}

pub open spec fn spec_stone_id(id: u32) -> Seq<char> {
    "b"@ + text::spec_decimal(id as int)
}

pub open spec fn spec_platform_id(id: u32) -> Seq<char> {
    "p"@ + text::spec_decimal(id as int)
}

/// `o` is the stone of segment `id`, occupying `rect`.
pub open spec fn spec_is_stone(o: Obstacle, id: u32, rect: Rect) -> bool {
    o matches Obstacle::Barrier(b) && b.id@ == spec_stone_id(id) && b.image.bounding_box == rect
}

/// `o` is the floating platform of segment `id`, placed at `position`.
pub open spec fn spec_is_platform(o: Obstacle, id: u32, position: Point) -> bool {
    &&& o matches Obstacle::Platform(p)
    &&& o->Platform_0.id@ == spec_platform_id(id)
    &&& o->Platform_0.position == position
    &&& o->Platform_0.has_dog == false
    &&& o->Platform_0.bounding_boxes@.len() == 3
    &&& forall|i: int|
        0 <= i < 3 ==> o->Platform_0.bounding_boxes@[i] == spec_translated(
            spec_platform_boxes()[i],
            position,
        )
}

/// `o` is a fresh jump mark of the obstacle with identity `owner`, on the
/// given side, at `position`.
pub open spec fn spec_is_mark(
    o: Obstacle,
    owner: Seq<char>,
    direction: ObstacleMarkDirection,
    position: Point,
) -> bool {
    &&& o matches Obstacle::Mark(m)
    &&& o->Mark_0.id@ == spec_mark_id(owner, direction)
    &&& o->Mark_0.direction == direction
    &&& o->Mark_0.has_dog == false
    &&& o->Mark_0.position == position
}

/// The stone's rectangle for a stone placed at (`x`, `y`).
pub open spec fn spec_stone_rect(x: int, y: i16, width: i16, height: i16) -> Rect {
    Rect { position: Point { x: sat(x) as i16, y }, width, height }
}

/// The position of the left mark of a stone occupying `rect`.
pub open spec fn spec_stone_mark_left(rect: Rect) -> Point {
    Point { x: sat(rect.position.x - BARRIER_MARK_OFFSET) as i16, y: rect.position.y }
}

/// The position of the right mark of a stone occupying `rect`.
pub open spec fn spec_stone_mark_right(rect: Rect) -> Point {
    Point {
        x: sat(sat(rect.spec_right()) + BARRIER_MARK_OFFSET) as i16,
        y: sat(rect.position.y - BARRIER_MARK_RIGHT_RAISE) as i16,
    }
}

/// The position of the left mark of a platform placed at `position`.
pub open spec fn spec_platform_mark_left(position: Point) -> Point {
    Point { x: sat(position.x - PLATFORM_MARK_OFFSET) as i16, y: position.y }
}

/// The position of the right mark of a platform placed at `position`.
pub open spec fn spec_platform_mark_right(position: Point) -> Point {
    Point { x: sat(spec_platform_right(position) + PLATFORM_MARK_OFFSET) as i16, y: position.y }
}

/// `r` is the catalog segment of the given `kind`, built as segment `id`
/// with the given stone size, starting at `offset_x`. Kinds outside the
/// catalog build nothing.
pub open spec fn spec_is_segment(
    r: Seq<Obstacle>,
    kind: int,
    id: u32,
    stone_width: i16,
    stone_height: i16,
    offset_x: i16,
) -> bool {
    if kind == 0 {
        // Platform and stone.
        let platform = Point { x: sat(offset_x + 200) as i16, y: HIGH_PLATFORM };
        let stone = spec_stone_rect(offset_x + 350, STONE_ON_GROUND, stone_width, stone_height);
        &&& r.len() == 4
        &&& spec_is_mark(
            r[0],
            spec_platform_id(id),
            ObstacleMarkDirection::Left,
            spec_platform_mark_left(platform),
        )
        &&& spec_is_platform(r[1], id, platform)
        &&& spec_is_stone(r[2], id, stone)
        &&& spec_is_mark(
            r[3],
            spec_platform_id(id),
            ObstacleMarkDirection::Right,
            spec_platform_mark_right(platform),
        )
    } else if kind == 1 {
        // Platform high.
        let platform = Point { x: sat(offset_x + 200) as i16, y: HIGH_PLATFORM };
        r.len() == 1 && spec_is_platform(r[0], id, platform)
    } else if kind == 2 {
        // Platform low.
        let platform = Point { x: sat(offset_x + 200) as i16, y: LOW_PLATFORM };
        r.len() == 1 && spec_is_platform(r[0], id, platform)
    } else if kind == 3 {
        // Stone.
        let stone = spec_stone_rect(offset_x + 150, STONE_ON_GROUND, stone_width, stone_height);
        &&& r.len() == 3
        &&& spec_is_mark(
            r[0],
            spec_stone_id(id),
            ObstacleMarkDirection::Left,
            spec_stone_mark_left(stone),
        )
        &&& spec_is_stone(r[1], id, stone)
        &&& spec_is_mark(
            r[2],
            spec_stone_id(id),
            ObstacleMarkDirection::Right,
            spec_stone_mark_right(stone),
        )
    } else if kind == 4 {
        // Stone and platform: the deterministic opening segment.
        let stone = spec_stone_rect(offset_x + 130, STONE_ON_GROUND, stone_width, stone_height);
        let platform = Point { x: sat(offset_x + FIRST_PLATFORM) as i16, y: LOW_PLATFORM };
        &&& r.len() == 5
        &&& spec_is_mark(
            r[0],
            spec_stone_id(id),
            ObstacleMarkDirection::Left,
            spec_stone_mark_left(stone),
        )
        &&& spec_is_stone(r[1], id, stone)
        &&& spec_is_mark(
            r[2],
            spec_stone_id(id),
            ObstacleMarkDirection::Right,
            spec_stone_mark_right(stone),
        )
        &&& spec_is_platform(r[3], id, platform)
        &&& spec_is_mark(
            r[4],
            spec_platform_id(id),
            ObstacleMarkDirection::Right,
            spec_platform_mark_right(platform),
        )
    } else if kind == 5 {
        // Stone on platform.
        let stone = spec_stone_rect(offset_x + 390, STONE_ON_PLATFORM, stone_width, stone_height);
        let platform = Point { x: sat(offset_x + 200) as i16, y: HIGH_PLATFORM };
        &&& r.len() == 2
        &&& spec_is_stone(r[0], id, stone)
        &&& spec_is_platform(r[1], id, platform)
    } else {
        r.len() == 0
    }
}

pub struct SegmentFactory {
    /// The obstacle-id counter: every built segment gets the next identity.
    pub id: u32,
    /// Pixel size of the stone image, fixed at construction.
    pub stone_width: i16,
    pub stone_height: i16,
}

/// Relies on rand's `thread_rng` and `Rng::gen_range`: a number drawn from
/// the given half-open range. Nothing more is promised of a random draw.
#[verifier::external_body]
fn random_segment_kind() -> (r: i32)
    ensures
        0 <= r < SEGMENT_KINDS,
{
    rand::Rng::gen_range(&mut rand::thread_rng(), 0..SEGMENT_KINDS)
}

impl SegmentFactory {
    /// Counter advance: one step up, stopping at the top of the range.
    pub open spec fn spec_next_id(self) -> u32 {
        if self.id < u32::MAX {
            (self.id + 1) as u32
        } else {
            self.id
        }
    }

    pub fn new(stone_width: i16, stone_height: i16) -> (r: SegmentFactory)
        ensures
            r.id == 0,
            r.stone_width == stone_width,
            r.stone_height == stone_height,
    {
        SegmentFactory { id: 0, stone_width, stone_height }
    }

    /// The deterministic segment that seeds the very first run.
    pub fn first(&mut self) -> (r: Vec<Obstacle>)
        ensures
            final(self).id == old(self).spec_next_id(),
            final(self).stone_width == old(self).stone_width,
            final(self).stone_height == old(self).stone_height,
            spec_is_segment(
                r@,
                FIRST_SEGMENT_KIND as int,
                final(self).id,
                old(self).stone_width,
                old(self).stone_height,
                0,
            ),
    {
        self.select(FIRST_SEGMENT_KIND, 0)
    }

    /// A randomly selected catalog segment starting at `offset_x`.
    pub fn random(&mut self, offset_x: i16) -> (r: Vec<Obstacle>)
        ensures
            final(self).id == old(self).spec_next_id(),
            final(self).stone_width == old(self).stone_width,
            final(self).stone_height == old(self).stone_height,
            exists|kind: int|
                0 <= kind < SEGMENT_KINDS && spec_is_segment(
                    r@,
                    kind,
                    final(self).id,
                    old(self).stone_width,
                    old(self).stone_height,
                    offset_x,
                ),
    {
        let next_segment = random_segment_kind();
        let r = self.select(next_segment, offset_x);
        proof {
            assert(spec_is_segment(
                r@,
                next_segment as int,
                self.id,
                old(self).stone_width,
                old(self).stone_height,
                offset_x,
            ));
        }
        r
    }

    /// Builds catalog segment `segment` starting at `offset_x`, advancing
    /// the id counter.
    pub fn select(&mut self, segment: i32, offset_x: i16) -> (r: Vec<Obstacle>)
        ensures
            final(self).id == old(self).spec_next_id(),
            final(self).stone_width == old(self).stone_width,
            final(self).stone_height == old(self).stone_height,
            spec_is_segment(
                r@,
                segment as int,
                final(self).id,
                old(self).stone_width,
                old(self).stone_height,
                offset_x,
            ),
    {
        if self.id < u32::MAX {
            self.id = self.id + 1;
        }

        match segment {
            0 => self.platform_and_stone(offset_x),
            1 => self.platform_high(offset_x),
            2 => self.platform_low(offset_x),
            3 => self.stone(offset_x),
            4 => self.stone_and_platform(offset_x),
            5 => self.stone_on_platform(offset_x),
            _ => Vec::new(),
        }
    }

    /// The floating platform's collision sub-rectangles, relative to its
    /// position.
    fn platform_bounding_boxes() -> (r: Vec<Rect>)
        ensures
            r@ == spec_platform_boxes(),
    {
        let mut boxes: Vec<Rect> = Vec::new();
        boxes.push(Rect::new_from_x_y(0, 0, 60, 54));
        boxes.push(Rect::new_from_x_y(60, 0, 264, 93));
        boxes.push(Rect::new_from_x_y(324, 0, 60, 54));
        proof {
            assert(boxes@ =~= spec_platform_boxes());
        }
        boxes
    }

    fn create_floating_platform(&self, position: Point) -> (r: Platform)
        ensures
            r.id@ == spec_platform_id(self.id),
            r.position == position,
            r.has_dog == false,
            r.bounding_boxes@.len() == 3,
            forall|i: int|
                0 <= i < 3 ==> r.bounding_boxes@[i] == spec_translated(
                    spec_platform_boxes()[i],
                    position,
                ),
    {
        proof {
            reveal_strlit("p");
        }
        let id = String::from_str("p").concat(text::decimal_string(self.id).as_str());
        proof {
            assert(id@ =~= spec_platform_id(self.id));
        }
        Platform::new(id, position, &Self::platform_bounding_boxes())
    }

    fn create_stone(&self, x: i16, y: i16) -> (r: Barrier)
        ensures
            r.id@ == spec_stone_id(self.id),
            r.image.bounding_box == (Rect {
                position: Point { x, y },
                width: self.stone_width,
                height: self.stone_height,
            }),
    {
        proof {
            reveal_strlit("b");
        }
        let id = String::from_str("b").concat(text::decimal_string(self.id).as_str());
        proof {
            assert(id@ =~= spec_stone_id(self.id));
        }
        Barrier::new(id, Image::new(Point { x, y }, self.stone_width, self.stone_height))
    }

    fn platform_and_stone(&self, offset_x: i16) -> (r: Vec<Obstacle>)
        ensures
            spec_is_segment(r@, 0, self.id, self.stone_width, self.stone_height, offset_x),
    {
        let platform = self.create_floating_platform(
            Point { x: sat_add(offset_x, 200), y: HIGH_PLATFORM },
        );
        let stone = self.create_stone(sat_add(offset_x, 350), STONE_ON_GROUND);

        let mark_left = platform.mark_left();
        let mark_right = platform.mark_right();

        let mut r: Vec<Obstacle> = Vec::new();
        r.push(Obstacle::Mark(mark_left));
        r.push(Obstacle::Platform(platform));
        r.push(Obstacle::Barrier(stone));
        r.push(Obstacle::Mark(mark_right));
        r
    }

    fn platform_high(&self, offset_x: i16) -> (r: Vec<Obstacle>)
        ensures
            spec_is_segment(r@, 1, self.id, self.stone_width, self.stone_height, offset_x),
    {
        let platform = self.create_floating_platform(
            Point { x: sat_add(offset_x, 200), y: HIGH_PLATFORM },
        );
        let mut r: Vec<Obstacle> = Vec::new();
        r.push(Obstacle::Platform(platform));
        r
    }

    fn platform_low(&self, offset_x: i16) -> (r: Vec<Obstacle>)
        ensures
            spec_is_segment(r@, 2, self.id, self.stone_width, self.stone_height, offset_x),
    {
        let platform = self.create_floating_platform(
            Point { x: sat_add(offset_x, 200), y: LOW_PLATFORM },
        );
        let mut r: Vec<Obstacle> = Vec::new();
        r.push(Obstacle::Platform(platform));
        r
    }

    fn stone(&self, offset_x: i16) -> (r: Vec<Obstacle>)
        ensures
            spec_is_segment(r@, 3, self.id, self.stone_width, self.stone_height, offset_x),
    {
        let stone = self.create_stone(sat_add(offset_x, 150), STONE_ON_GROUND);

        let mark_left = stone.mark_left();
        let mark_right = stone.mark_right();

        let mut r: Vec<Obstacle> = Vec::new();
        r.push(Obstacle::Mark(mark_left));
        r.push(Obstacle::Barrier(stone));
        r.push(Obstacle::Mark(mark_right));
        r
    }

    fn stone_and_platform(&self, offset_x: i16) -> (r: Vec<Obstacle>)
        ensures
            spec_is_segment(r@, 4, self.id, self.stone_width, self.stone_height, offset_x),
    {
        let stone = self.create_stone(sat_add(offset_x, 130), STONE_ON_GROUND);
        let platform = self.create_floating_platform(
            Point { x: sat_add(offset_x, FIRST_PLATFORM), y: LOW_PLATFORM },
        );

        let mark_left = stone.mark_left();
        let mark_right_stone = stone.mark_right();
        let mark_right = platform.mark_right();

        let mut r: Vec<Obstacle> = Vec::new();
        r.push(Obstacle::Mark(mark_left));
        r.push(Obstacle::Barrier(stone));
        r.push(Obstacle::Mark(mark_right_stone));
        r.push(Obstacle::Platform(platform));
        r.push(Obstacle::Mark(mark_right));
        r
    }

    fn stone_on_platform(&self, offset_x: i16) -> (r: Vec<Obstacle>)
        ensures
            spec_is_segment(r@, 5, self.id, self.stone_width, self.stone_height, offset_x),
    {
        let stone = self.create_stone(sat_add(offset_x, 390), STONE_ON_PLATFORM);
        let platform = self.create_floating_platform(
            Point { x: sat_add(offset_x, 200), y: HIGH_PLATFORM },
        );

        let mut r: Vec<Obstacle> = Vec::new();
        r.push(Obstacle::Barrier(stone));
        r.push(Obstacle::Platform(platform));
        r
    }
}

} // verus!
