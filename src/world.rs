//! The bounded world the car drives in, and the car's position inside it.
//!
//! Coordinates are in micro-units with the origin at the centre of the world.
use vstd::prelude::*;

use crate::fixed::clamp_spec;

verus! {

/// A rectangle centred on the origin, given by its half-extents.
#[derive(Clone, Copy, Debug, PartialEq, Eq, Structural)]
pub struct World {
    pub half_width: i64,
    pub half_height: i64,
}

/// A point in the plane.
#[derive(Clone, Copy, Debug, PartialEq, Eq, Structural)]
pub struct Position {
    pub x: i64,
    pub y: i64,
}

impl World {
    pub open spec fn wf(self) -> bool {
        self.half_width >= 0 && self.half_height >= 0
    }

    /// Whether `p` lies in the rectangle, borders included.
    pub open spec fn contains(self, p: Position) -> bool {
        -self.half_width <= p.x <= self.half_width && -self.half_height <= p.y
            <= self.half_height
    }

    /// The world `width` wide and `height` high, half of each rounded down; `None`
    /// when either is negative.
    pub fn new(width: i64, height: i64) -> (r: Option<World>)
        ensures
            match r {
                Some(w) => {
                    &&& width >= 0 && height >= 0
                    &&& w.wf()
                    &&& w.half_width == width / 2
                    &&& w.half_height == height / 2
                },
                None => width < 0 || height < 0,
            },
    {
        if width < 0 || height < 0 {
            None
        } else {
            Some(World { half_width: width / 2, half_height: height / 2 })
        }
    }

    /// The nearest point of the world to `p`: each axis limited on its own.
    pub fn clamp_position(&self, p: Position) -> (r: Position)
        requires
            self.wf(),
        ensures
            r.x == clamp_spec(p.x as int, -self.half_width, self.half_width as int),
            r.y == clamp_spec(p.y as int, -self.half_height, self.half_height as int),
            self.contains(r),
            self.contains(p) ==> r == p,
    {
        Position {
            x: clamp_axis(p.x as i128, self.half_width),
            y: clamp_axis(p.y as i128, self.half_height),
        }
    }
}

/// `v` limited to `[-half, half]`.
fn clamp_axis(v: i128, half: i64) -> (r: i64)
    requires
        half >= 0,
    ensures
        r == clamp_spec(v as int, -half, half as int),
{
    if v > half as i128 {
        half
    } else if v < -(half as i128) {
        -half
    } else {
        v as i64
    }
}

impl Position {
    /// The centre of the world.
    pub fn origin() -> (r: Position)
        ensures
            r.x == 0 && r.y == 0,
    {
        Position { x: 0, y: 0 }
    }

    /// Moves by `(dx, dy)` and stops at the border: an axis that would leave the
    /// world ends exactly on the nearer border, and the other axis moves freely.
    pub fn translate_clamped(&mut self, dx: i64, dy: i64, world: &World)
        requires
            world.wf(),
        ensures
            final(self).x == clamp_spec(
                old(self).x + dx,
                -world.half_width,
                world.half_width as int,
            ),
            final(self).y == clamp_spec(
                old(self).y + dy,
                -world.half_height,
                world.half_height as int,
            ),
            world.contains(*final(self)),
            old(self).x + dx > world.half_width ==> final(self).x == world.half_width,
            old(self).x + dx < -world.half_width ==> final(self).x == -world.half_width,
            -world.half_width <= old(self).x + dx <= world.half_width ==> final(self).x
                == old(self).x + dx,
            old(self).y + dy > world.half_height ==> final(self).y == world.half_height,
            old(self).y + dy < -world.half_height ==> final(self).y == -world.half_height,
            -world.half_height <= old(self).y + dy <= world.half_height ==> final(self).y
                == old(self).y + dy,
    {
        self.x = clamp_axis(self.x as i128 + dx as i128, world.half_width);
        self.y = clamp_axis(self.y as i128 + dy as i128, world.half_height);
    }
}

} // verus!
