//! A paddle: its top-left corner and its size.

use vstd::prelude::*;
use crate::geometry::{Point, Size};

verus! {

/// The paddle of one player. Its left edge, from the top-left corner down,
/// is what the ball is tested against.
#[derive(Clone, Copy, Debug)]
pub struct Player {
    pub position: Point,
    pub size: Size,
}

impl Player {
    /// A paddle of `w` by `h` pixels with its top-left corner at `(x, y)`.
    pub fn new(x: i32, y: i32, w: u32, h: u32) -> (player: Player)
        ensures
            player == (Player {
                position: Point { x, y },
                size: Size { width: w, height: h },
            }),
    {
        Player { position: Point::new(x, y), size: Size::new(w, h) }
    }

    /// The x coordinate of the edge that the ball is tested against.
    pub open spec fn edge_x(self) -> int {
        self.position.x as int
    }

    /// The y coordinate of the top end of that edge.
    pub open spec fn edge_top(self) -> int {
        self.position.y as int
    }

    /// The y coordinate of the bottom end of that edge.
    pub open spec fn edge_bottom(self) -> int {
        self.position.y + self.size.height
    }
}

} // verus!
