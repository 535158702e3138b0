use vstd::prelude::*;

use crate::point::Point;
use crate::utils::generate_random_int;

verus! {

/// The rectangle the game is played on. Drawing belongs to the terminal
/// front end; the core keeps only the dimensions, from which the playable
/// interior `[1, width-2] x [1, height-2]` is derived. The one-cell-thick
/// perimeter is the wall.
pub struct Board {
    dimensions: (u16, u16),
}

impl Board {
    pub closed spec fn dims(&self) -> (u16, u16) {
        self.dimensions
    }

    /// Both dimensions leave room for the wall around a non-empty interior.
    pub open spec fn wf(&self) -> bool {
        self.dims().0 >= 3 && self.dims().1 >= 3
    }

    /// True when the point lies strictly inside the walls.
    pub open spec fn in_interior(&self, p: Point) -> bool {
        0 < p.x < self.dims().0 - 1 && 0 < p.y < self.dims().1 - 1
    }

    pub fn new(dimensions: (u16, u16)) -> (b: Self)
        ensures
            b.dims() == dimensions,
    {
        Board { dimensions }
    }

    pub fn get_dimensions(&self) -> (r: (u16, u16))
        ensures
            r == self.dims(),
    {
        self.dimensions
    }

    /// A random interior cell of the board.
    pub fn random_point(&self) -> (p: Point)
        requires
            self.wf(),
        ensures
            self.in_interior(p),
    {
        Point::new(
            generate_random_int(1, self.dimensions.0 - 1),
            generate_random_int(1, self.dimensions.1 - 1),
        )
    }
}

} // verus!
