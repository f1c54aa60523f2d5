//! The ball: where it is, how large it is and how fast it moves.

use vstd::prelude::*;
use crate::geometry::Point;

verus! {

/// What a `Ball` stands for, over the mathematical integers. A simulation
/// step is stated over this model, so that its result is defined whether or
/// not it fits the machine's integers.
pub struct BallModel {
    pub x: int,
    pub y: int,
    pub diameter: nat,
    pub speed_x: int,
    pub speed_y: int,
}

impl BallModel {
    /// Every component can be held by a `Ball`.
    pub open spec fn fits(self) -> bool {
        &&& i32::MIN <= self.x <= i32::MAX
        &&& i32::MIN <= self.y <= i32::MAX
        &&& self.diameter <= u32::MAX
        &&& i32::MIN <= self.speed_x <= i32::MAX
        &&& i32::MIN <= self.speed_y <= i32::MAX
    }
}

/// The ball. Its position is its top-left corner where it is tested against
/// a paddle or a boundary.
#[derive(Clone, Copy, Debug)]
pub struct Ball {
    pub position: Point,
    pub diameter: u32,
    pub speed_x: i32,
    pub speed_y: i32,
}

impl View for Ball {
    type V = BallModel;

    open spec fn view(&self) -> BallModel {
        BallModel {
            x: self.position.x as int,
            y: self.position.y as int,
            diameter: self.diameter as nat,
            speed_x: self.speed_x as int,
            speed_y: self.speed_y as int,
        }
    }
}

impl Ball {
    /// A ball at rest at `(x, y)`.
    pub fn new(x: i32, y: i32, diameter: u32) -> (ball: Ball)
        ensures
            ball == (Ball { position: Point { x, y }, diameter, speed_x: 0, speed_y: 0 }),
    {
        Ball { position: Point::new(x, y), diameter, speed_x: 0, speed_y: 0 }
    }
}

} // verus!
