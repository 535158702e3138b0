use vstd::prelude::*;

use std::collections::VecDeque;

use crate::error::Error;
use crate::point::{spec_translate, Point};
use crate::utils::generate_random_int;

verus! {

/// One of the four headings the snake can move in.
#[derive(Clone, Copy, PartialEq, Eq, Structural, Debug)]
pub enum Direction {
    Up,
    Down,
    Left,
    Right,
}

/// Whether a tick's food check found the head on the food cell.
#[derive(Clone, Copy, PartialEq, Eq, Structural, Debug)]
pub enum FoodStatus {
    Eaten,
    Untouched,
}

/// A proposed next state of the snake's front: where the head would move
/// and the heading that move would commit.
#[derive(Clone, Copy, PartialEq, Eq, Structural, Debug)]
pub struct Head {
    pub position: Point,
    pub direction: Direction,
}

/// The unit delta `(dx, dy)` each direction stands for, with `y` growing
/// downwards as on a terminal screen.
pub open spec fn direction_delta(d: Direction) -> (int, int) {
    match d {
        Direction::Up => (0, -1),
        Direction::Down => (0, 1),
        Direction::Left => (-1, 0),
        Direction::Right => (1, 0),
    }
}

/// The body after eating: a copy of the tail cell is appended, so that the
/// pop of the next move removes the copy and the length nets +1.
pub open spec fn grown(b: Seq<Point>) -> Seq<Point> {
    b.push(b.last())
}

/// The body after one committed move: the new head is pushed to the front
/// and the hindmost cell is popped off the back.
pub open spec fn advanced(b: Seq<Point>, new_head: Point) -> Seq<Point> {
    (seq![new_head] + b).drop_last()
}

/// The ordered snake body, head at the front, with its current heading.
pub struct Snake {
    body: VecDeque<Point>,
    current_direction: Direction,
}

impl View for Snake {
    type V = Seq<Point>;

    closed spec fn view(&self) -> Seq<Point> {
        self.body@
    }
}

/// What `Snake::calculate_new_head` returns: the requested direction, or
/// the current heading when none is requested, applied to the head cell.
pub open spec fn spec_new_head(s: Snake, new_direction: Option<Direction>) -> Result<
    Head,
    Error,
> {
    let d = match new_direction {
        Some(d0) => d0,
        None => s.heading(),
    };
    if s@.len() == 0 {
        Err(Error::EmptySnake)
    } else {
        match spec_translate(s@[0], direction_delta(d).0, direction_delta(d).1) {
            Ok(p) => Ok(Head { position: p, direction: d }),
            Err(e) => Err(e),
        }
    }
}

/// Law: translating a point by a direction's unit delta succeeds and lands
/// exactly on the shifted coordinates whenever both of them stay at or
/// above zero and still fit the grid type.
pub proof fn lemma_translate_delta_succeeds(p: Point, d: Direction)
    requires
        p.x + direction_delta(d).0 >= 0,
        p.y + direction_delta(d).1 >= 0,
        p.x + direction_delta(d).0 <= u16::MAX,
        p.y + direction_delta(d).1 <= u16::MAX,
    ensures
        spec_translate(p, direction_delta(d).0, direction_delta(d).1) == Ok::<Point, Error>(
            Point {
                x: (p.x + direction_delta(d).0) as u16,
                y: (p.y + direction_delta(d).1) as u16,
            },
        ),
{
}

/// Law: when the head sits on the food, eating and then committing one
/// move nets exactly one extra cell; the new head leads the body, every
/// old cell keeps its place behind it, and the original tail survives as
/// the new tail.
pub proof fn lemma_growth_correctness(b: Seq<Point>, new_head: Point)
    requires
        b.len() >= 1,
    ensures
        advanced(grown(b), new_head) == seq![new_head] + b,
        advanced(grown(b), new_head).len() == b.len() + 1,
        advanced(grown(b), new_head)[0] == new_head,
        advanced(grown(b), new_head).last() == b.last(),
{
    assert(advanced(grown(b), new_head) =~= seq![new_head] + b);
}

/// Law: when no food was eaten, one committed move keeps the length, puts
/// the new head in front and removes exactly the oldest tail cell.
pub proof fn lemma_no_growth_correctness(b: Seq<Point>, new_head: Point)
    requires
        b.len() >= 1,
    ensures
        advanced(b, new_head) == seq![new_head] + b.drop_last(),
        advanced(b, new_head).len() == b.len(),
        advanced(b, new_head)[0] == new_head,
{
    assert(advanced(b, new_head) =~= seq![new_head] + b.drop_last());
}

impl Snake {
    /// The direction the snake keeps moving in when no key is pressed.
    pub closed spec fn heading(&self) -> Direction {
        self.current_direction
    }

    /// Build a snake from an explicit body and heading.
    pub fn from_body(body: VecDeque<Point>, current_direction: Direction) -> (s: Self)
        ensures
            s@ == body@,
            s.heading() == current_direction,
    {
        Snake { body, current_direction }
    }

    /// A fresh length-1 snake on a random interior cell of the board,
    /// heading Left.
    pub fn new(board_dimensions: (u16, u16)) -> (s: Self)
        requires
            board_dimensions.0 >= 3,
            board_dimensions.1 >= 3,
        ensures
            s@.len() == 1,
            1 <= s@[0].x < board_dimensions.0 - 1,
            1 <= s@[0].y < board_dimensions.1 - 1,
            s.heading() == Direction::Left,
    {
        let x = generate_random_int(1, board_dimensions.0 - 1);
        let y = generate_random_int(1, board_dimensions.1 - 1);
        let mut body: VecDeque<Point> = VecDeque::new();
        body.push_back(Point::new(x, y));
        Snake { body, current_direction: Direction::Left }
    }

    pub fn get_current_head_position(&self) -> (r: Result<&Point, Error>)
        ensures
            self@.len() > 0 ==> (r matches Ok(p) && *p == self@[0]),
            self@.len() == 0 ==> r == Err::<&Point, Error>(Error::EmptySnake),
    {
        if self.body.len() > 0 {
            Ok(&self.body[0])
        } else {
            Err(Error::EmptySnake)
        }
    }

    pub fn get_current_tail_position(&self) -> (r: Result<&Point, Error>)
        ensures
            self@.len() > 0 ==> (r matches Ok(p) && *p == self@.last()),
            self@.len() == 0 ==> r == Err::<&Point, Error>(Error::EmptySnake),
    {
        if self.body.len() > 0 {
            Ok(&self.body[self.body.len() - 1])
        } else {
            Err(Error::EmptySnake)
        }
    }

    pub fn get_body(&self) -> (r: &VecDeque<Point>)
        ensures
            r@ == self@,
    {
        &self.body
    }

    fn get_direction_deltas(&self, direction: Direction) -> (r: (i16, i16))
        ensures
            r.0 as int == direction_delta(direction).0,
            r.1 as int == direction_delta(direction).1,
    {
        match direction {
            Direction::Up => (0, -1),
            Direction::Down => (0, 1),
            Direction::Left => (-1, 0),
            Direction::Right => (1, 0),
        }
    }

    /// The head the snake would move to under the requested direction (or
    /// its current heading), without committing anything.
    pub fn calculate_new_head(&self, new_direction: Option<Direction>) -> (r: Result<
        Head,
        Error,
    >)
        ensures
            r == spec_new_head(*self, new_direction),
    {
        let direction = match new_direction {
            Some(d) => d,
            None => self.current_direction,
        };
        let deltas = self.get_direction_deltas(direction);
        let head = match self.get_current_head_position() {
            Ok(p) => *p,
            Err(e) => {
                return Err(e);
            },
        };
        match head.add_deltas(deltas) {
            Ok(position) => Ok(Head { position, direction }),
            Err(e) => Err(e),
        }
    }

    /// Compare the food cell with the head; on a hit, append a copy of the
    /// tail so that the next committed move nets one extra cell.
    pub fn eat_food(&mut self, food_position: &Point) -> (r: Result<FoodStatus, Error>)
        ensures
            final(self).heading() == old(self).heading(),
            old(self)@.len() == 0 ==> r == Err::<FoodStatus, Error>(Error::EmptySnake)
                && final(self)@ == old(self)@,
            old(self)@.len() > 0 && *food_position == old(self)@[0] ==> r == Ok::<
                FoodStatus,
                Error,
            >(FoodStatus::Eaten) && final(self)@ == grown(old(self)@),
            old(self)@.len() > 0 && *food_position != old(self)@[0] ==> r == Ok::<
                FoodStatus,
                Error,
            >(FoodStatus::Untouched) && final(self)@ == old(self)@,
    {
        if self.body.len() == 0 {
            return Err(Error::EmptySnake);
        }
        let head = self.body[0];
        if *food_position == head {
            let tail = self.body[self.body.len() - 1];
            self.body.push_back(tail);
            return Ok(FoodStatus::Eaten);
        }
        Ok(FoodStatus::Untouched)
    }

    /// True exactly when the point equals some cell of the body.
    pub fn does_point_intersect(&self, point: &Point) -> (r: bool)
        ensures
            r == self@.contains(*point),
    {
        let mut i: usize = 0;
        while i < self.body.len()
            invariant
                0 <= i <= self.body@.len(),
                forall|j: int| 0 <= j < i ==> self.body@[j] != *point,
            decreases self.body@.len() - i,
        {
            if *point == self.body[i] {
                return true;
            }
            i = i + 1;
        }
        false
    }

    pub fn get_length(&self) -> (r: usize)
        ensures
            r == self@.len(),
    {
        self.body.len()
    }

    /// Commit a move: adopt the head's direction, push its position to the
    /// front and pop the hindmost cell.
    pub fn move_forward(&mut self, new_head: Head)
        ensures
            final(self).heading() == new_head.direction,
            final(self)@ == advanced(old(self)@, new_head.position),
    {
        self.current_direction = new_head.direction;
        self.body.push_front(new_head.position);
        let _ = self.body.pop_back();
    }
}

} // verus!
