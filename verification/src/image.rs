//! A positioned image: the rectangle a static picture occupies on screen.
//! The picture itself (its pixel data and drawing handle) lives outside
//! this crate; the library only needs its geometry.

use vstd::prelude::*;
use crate::rect::{sat, sat_add, Point, Rect};

verus! {

/// Options handed to the drawing layer.
pub struct DrawImageOptions {
    pub flip_horizontally: bool,
}

#[derive(Clone, Copy, PartialEq, Eq, Structural, Debug)]
pub struct Image {
    pub bounding_box: Rect,
}

impl Image {
    /// An image of the given pixel size placed at `position`.
    pub fn new(position: Point, width: i16, height: i16) -> (r: Image)
        ensures
            r.bounding_box == (Rect { position, width, height }),
    {
        Image { bounding_box: Rect { position, width, height } }
    }

    pub fn bounding_box(&self) -> (r: &Rect)
        ensures
            *r == self.bounding_box,
    {
        &self.bounding_box
    }

    /// Shifts the image horizontally by `distance`.
    pub fn move_horizontally(&mut self, distance: i16)
        ensures
            final(self).bounding_box.position.x as int == sat(
                old(self).bounding_box.position.x + distance,
            ),
            final(self).bounding_box.position.y == old(self).bounding_box.position.y,
            final(self).bounding_box.width == old(self).bounding_box.width,
            final(self).bounding_box.height == old(self).bounding_box.height,
    {
        let x = sat_add(self.bounding_box.x(), distance);
        self.set_x(x);
    }

    pub fn right(&self) -> (r: i16)
        ensures
            r as int == sat(self.bounding_box.spec_right()),
    {
        self.bounding_box.right()
    }

    pub fn set_x(&mut self, x: i16)
        ensures
            final(self).bounding_box == (Rect {
                position: Point { x, y: old(self).bounding_box.position.y },
                ..old(self).bounding_box
            }),
    {
        self.bounding_box.set_x(x);
    }
}

} // verus!
