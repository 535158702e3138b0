use vstd::prelude::*;

use crate::error::Error;

verus! {

/// An immutable grid coordinate; both components are non-negative by type.
#[derive(Clone, Copy, PartialEq, Eq, Structural, Debug)]
pub struct Point {
    pub x: u16,
    pub y: u16,
}

/// What translating a point by `(dx, dy)` yields: the sums are formed in the
/// unbounded integers; a negative component is refused as `NegativePoint`,
/// and one that does not fit back into `u16` as `ConversionError`.
pub open spec fn spec_translate(p: Point, dx: int, dy: int) -> Result<Point, Error> {
    let nx = p.x + dx;
    let ny = p.y + dy;
    if nx < 0 || ny < 0 {
        Err(Error::NegativePoint)
    } else if nx > u16::MAX || ny > u16::MAX {
        Err(Error::ConversionError)
    } else {
        Ok(Point { x: nx as u16, y: ny as u16 })
    }
}

/// Law: translation fails, and fails with `NegativePoint`, exactly when a
/// shifted coordinate would drop below zero.
pub proof fn lemma_translate_negative_fails(p: Point, dx: int, dy: int)
    requires
        p.x + dx < 0 || p.y + dy < 0,
    ensures
        spec_translate(p, dx, dy) == Err::<Point, Error>(Error::NegativePoint),
{
}

impl Point {
    pub fn new(x: u16, y: u16) -> (p: Self)
        ensures
            p == (Point { x, y }),
    {
        Point { x, y }
    }

    /// Shift this point by a pair of signed deltas, rejecting any result
    /// that would leave the non-negative `u16` grid.
    pub fn add_deltas(&self, deltas: (i16, i16)) -> (r: Result<Self, Error>)
        ensures
            r == spec_translate(*self, deltas.0 as int, deltas.1 as int),
    {
        let new_x = self.x as i32 + deltas.0 as i32;
        let new_y = self.y as i32 + deltas.1 as i32;
        if new_x < 0 || new_y < 0 {
            Err(Error::NegativePoint)
        } else if new_x > u16::MAX as i32 || new_y > u16::MAX as i32 {
            Err(Error::ConversionError)
        } else {
            Ok(Point { x: new_x as u16, y: new_y as u16 })
        }
    }
}

} // verus!
