use vstd::prelude::*;

use crate::board::Board;
use crate::error::Error;
use crate::point::Point;
use crate::snake::{advanced, grown, spec_new_head, Direction, FoodStatus, Head, Snake};

verus! {

/// The per-tick verdict on a proposed move: either the validated head to
/// commit, or the end of the session.
#[derive(Clone, Copy, PartialEq, Eq, Structural, Debug)]
pub enum ActionDecision {
    Proceed(Head),
    GameOver,
}

/// The latest pending command, as resolved from the keyboard.
#[derive(Clone, Copy, PartialEq, Eq, Structural, Debug)]
pub enum ActionKey {
    Move(Direction),
    Exit,
    Idle,
}

/// How many random draws the food relocation makes before it falls back
/// to a deterministic scan of the interior.
pub const FOOD_DRAW_ATTEMPTS: u16 = 64;

/// The whole game state a tick works on: the board geometry, the snake
/// and the current food cell.
pub struct Game {
    board: Board,
    snake: Snake,
    food_position: Point,
}

impl Game {
    pub closed spec fn board(&self) -> Board {
        self.board
    }

    pub closed spec fn snake(&self) -> Snake {
        self.snake
    }

    pub closed spec fn food(&self) -> Point {
        self.food_position
    }

    pub open spec fn dims(&self) -> (u16, u16) {
        self.board().dims()
    }

    pub open spec fn wf(&self) -> bool {
        self.board().wf()
    }

    /// What the movement decision returns for a resolved direction: the
    /// candidate head is computed from the snake, and it is committed only
    /// if it lies strictly inside the walls and misses the whole body.
    pub open spec fn spec_decision(&self, new_direction: Option<Direction>) -> Result<
        ActionDecision,
        Error,
    > {
        match spec_new_head(self.snake(), new_direction) {
            Ok(h) => Ok(
                if self.board().in_interior(h.position) && !self.snake()@.contains(h.position) {
                    ActionDecision::Proceed(h)
                } else {
                    ActionDecision::GameOver
                },
            ),
            Err(e) => Err(e),
        }
    }

    /// A fresh game: a random length-1 snake and a random food cell, both
    /// strictly inside the walls.
    pub fn new(dimensions: (u16, u16)) -> (g: Self)
        requires
            dimensions.0 >= 3,
            dimensions.1 >= 3,
        ensures
            g.wf(),
            g.dims() == dimensions,
            g.snake()@.len() == 1,
            g.board().in_interior(g.snake()@[0]),
            g.snake().heading() == Direction::Left,
            g.board().in_interior(g.food()),
    {
        let board = Board::new(dimensions);
        let snake = Snake::new(dimensions);
        let food_position = board.random_point();
        Game { board, snake, food_position }
    }

    /// A game assembled from explicit parts.
    pub fn with_state(dimensions: (u16, u16), snake: Snake, food_position: Point) -> (g: Self)
        requires
            dimensions.0 >= 3,
            dimensions.1 >= 3,
        ensures
            g.wf(),
            g.dims() == dimensions,
            g.snake() == snake,
            g.food() == food_position,
    {
        Game { board: Board::new(dimensions), snake, food_position }
    }

    /// Move the food to a random interior cell that misses the body. The
    /// draw is repeated while it lands on the snake; after a bounded number
    /// of draws the interior is scanned instead, so a free cell is found
    /// whenever one exists at all, and the food stays put only when the
    /// body covers the whole interior.
    pub fn generate_new_food(&mut self)
        requires
            old(self).wf(),
        ensures
            final(self).board() == old(self).board(),
            final(self).snake() == old(self).snake(),
            (exists|p: Point|
                old(self).board().in_interior(p) && !old(self).snake()@.contains(p)) ==> final(
                self).board().in_interior(final(self).food()) && !final(self).snake()@.contains(
                final(self).food()),
            !(exists|p: Point|
                old(self).board().in_interior(p) && !old(self).snake()@.contains(p)) ==> final(
                self).food() == old(self).food(),
    {
        let mut attempts: u16 = 0;
        while attempts < FOOD_DRAW_ATTEMPTS
            invariant
                self == old(self),
                self.board.wf(),
            decreases FOOD_DRAW_ATTEMPTS - attempts,
        {
            let candidate = self.board.random_point();
            if !self.snake.does_point_intersect(&candidate) {
                self.food_position = candidate;
                return;
            }
            attempts = attempts + 1;
        }
        let dims = self.board.get_dimensions();
        let mut x: u16 = 1;
        while x < dims.0 - 1
            invariant
                self == old(self),
                self.board.wf(),
                dims == self.board.dims(),
                1 <= x <= dims.0 - 1,
                forall|p: Point|
                    self.board.in_interior(p) && p.x < x ==> #[trigger] self.snake@.contains(p),
            decreases dims.0 - 1 - x,
        {
            let mut y: u16 = 1;
            while y < dims.1 - 1
                invariant
                    self == old(self),
                    self.board.wf(),
                    dims == self.board.dims(),
                    1 <= x < dims.0 - 1,
                    1 <= y <= dims.1 - 1,
                    forall|p: Point|
                        self.board.in_interior(p) && p.x < x ==> #[trigger] self.snake@.contains(
                            p),
                    forall|p: Point|
                        p.x == x && 0 < p.y < y ==> #[trigger] self.snake@.contains(p),
                decreases dims.1 - 1 - y,
            {
                let candidate = Point::new(x, y);
                if !self.snake.does_point_intersect(&candidate) {
                    self.food_position = candidate;
                    return;
                }
                y = y + 1;
            }
            x = x + 1;
        }
        proof {
            assert forall|p: Point|
                !(self.board.in_interior(p) && !self.snake@.contains(p)) by {
                if self.board.in_interior(p) {
                    assert(p.x < x);
                    assert(self.snake@.contains(p));
                }
            }
        }
    }

    /// True when the point lies strictly inside this game's walls.
    pub fn is_within_coordinates(&self, point: Point) -> (r: bool)
        requires
            self.wf(),
        ensures
            r == self.board().in_interior(point),
    {
        let board_dimensions = self.board.get_dimensions();
        (point.x > 0 && point.x < board_dimensions.0 - 1) && (point.y > 0 && point.y
            < board_dimensions.1 - 1)
    }

    /// Validate one proposed direction (or the current heading) against
    /// the walls and the body.
    pub fn check_movement(&self, direction: Option<Direction>) -> (r: Result<
        ActionDecision,
        Error,
    >)
        requires
            self.wf(),
        ensures
            r == self.spec_decision(direction),
    {
        let new_head = match self.snake.calculate_new_head(direction) {
            Ok(h) => h,
            Err(e) => {
                return Err(e);
            },
        };
        if self.is_within_coordinates(new_head.position) && !self.snake.does_point_intersect(
            &new_head.position,
        ) {
            return Ok(ActionDecision::Proceed(new_head));
        }
        Ok(ActionDecision::GameOver)
    }

    /// Map the latest key, if any, to a command: w/s/a/d steer, q exits,
    /// everything else is ignored.
    pub fn get_action_key(&self, key: Option<char>) -> (r: ActionKey)
        ensures
            key == Some('w') ==> r == ActionKey::Move(Direction::Up),
            key == Some('s') ==> r == ActionKey::Move(Direction::Down),
            key == Some('a') ==> r == ActionKey::Move(Direction::Left),
            key == Some('d') ==> r == ActionKey::Move(Direction::Right),
            key == Some('q') ==> r == ActionKey::Exit,
            (match key {
                Some(c) => c != 'w' && c != 's' && c != 'a' && c != 'd' && c != 'q',
                None => true,
            }) ==> r == ActionKey::Idle,
    {
        match key {
            Some('w') => ActionKey::Move(Direction::Up),
            Some('s') => ActionKey::Move(Direction::Down),
            Some('a') => ActionKey::Move(Direction::Left),
            Some('d') => ActionKey::Move(Direction::Right),
            Some('q') => ActionKey::Exit,
            _ => ActionKey::Idle,
        }
    }

    /// One tick's decision: an explicit move is validated, an exit command
    /// ends the session at once, and no command continues straight.
    pub fn update(&self, action: ActionKey) -> (r: Result<ActionDecision, Error>)
        requires
            self.wf(),
        ensures
            action matches ActionKey::Move(d) ==> r == self.spec_decision(Some(d)),
            action == ActionKey::Exit ==> r == Ok::<ActionDecision, Error>(
                ActionDecision::GameOver,
            ),
            action == ActionKey::Idle ==> r == self.spec_decision(None::<Direction>),
    {
        match action {
            ActionKey::Move(direction) => self.check_movement(Some(direction)),
            ActionKey::Exit => Ok(ActionDecision::GameOver),
            ActionKey::Idle => self.check_movement(None),
        }
    }

    /// The food check of a tick: if the head sits on the food, grow the
    /// body by a tail copy and move the food to a fresh cell off the body.
    pub fn process_food(&mut self) -> (r: Result<(), Error>)
        requires
            old(self).wf(),
        ensures
            final(self).wf(),
            final(self).board() == old(self).board(),
            final(self).snake().heading() == old(self).snake().heading(),
            old(self).snake()@.len() == 0 ==> r == Err::<(), Error>(Error::EmptySnake)
                && final(self).snake()@ == old(self).snake()@
                && final(self).food() == old(self).food(),
            old(self).snake()@.len() > 0 && old(self).food() == old(self).snake()@[0] ==> r
                == Ok::<(), Error>(()) && final(self).snake()@ == grown(old(self).snake()@)
                && ((exists|p: Point|
                    final(self).board().in_interior(p) && !final(self).snake()@.contains(p))
                    ==> final(self).board().in_interior(final(self).food()) && !final(
                    self).snake()@.contains(final(self).food())) && (!(exists|p: Point|
                    final(self).board().in_interior(p) && !final(self).snake()@.contains(p))
                    ==> final(self).food() == old(self).food()),
            old(self).snake()@.len() > 0 && old(self).food() != old(self).snake()@[0] ==> r
                == Ok::<(), Error>(()) && final(self).snake()@ == old(self).snake()@
                && final(self).food() == old(self).food(),
    {
        let food = self.food_position;
        let status = match self.snake.eat_food(&food) {
            Ok(s) => s,
            Err(e) => {
                return Err(e);
            },
        };
        match status {
            FoodStatus::Eaten => self.generate_new_food(),
            FoodStatus::Untouched => (),
        }
        Ok(())
    }

    /// Commit a validated head: the snake adopts its direction, gains it
    /// as the new front cell and loses the hindmost cell.
    pub fn commit_move(&mut self, new_head: Head)
        ensures
            final(self).board() == old(self).board(),
            final(self).food() == old(self).food(),
            final(self).snake().heading() == new_head.direction,
            final(self).snake()@ == advanced(old(self).snake()@, new_head.position),
    {
        self.snake.move_forward(new_head);
    }

    pub fn get_snake(&self) -> (r: &Snake)
        ensures
            *r == self.snake(),
    {
        &self.snake
    }

    pub fn get_food_position(&self) -> (r: Point)
        ensures
            r == self.food(),
    {
        self.food_position
    }

    pub fn get_board(&self) -> (r: &Board)
        ensures
            *r == self.board(),
    {
        &self.board
    }
}

/// Law: a snake of length at least two that would step onto its own second
/// cell is refused; the decision is GameOver. A direct 180-degree reversal
/// is one instance of this.
pub proof fn lemma_self_collision_rejected(g: Game, d: Direction)
    requires
        g.snake()@.len() >= 2,
        spec_new_head(g.snake(), Some(d)) matches Ok(h) && h.position == g.snake()@[1],
    ensures
        g.spec_decision(Some(d)) == Ok::<ActionDecision, Error>(ActionDecision::GameOver),
{
    let h = spec_new_head(g.snake(), Some(d))->Ok_0;
    assert(g.snake()@.contains(h.position)) by {
        assert(g.snake()@[1] == h.position);
    }
}

/// Law: a candidate head that lands on the perimeter wall, with a
/// coordinate equal to zero or to the respective dimension minus one, is
/// refused; the decision is GameOver.
pub proof fn lemma_boundary_rejected(g: Game, new_direction: Option<Direction>)
    requires
        spec_new_head(g.snake(), new_direction) matches Ok(h) && (h.position.x == 0
            || h.position.x == g.dims().0 - 1 || h.position.y == 0 || h.position.y == g.dims().1
            - 1),
    ensures
        g.spec_decision(new_direction) == Ok::<ActionDecision, Error>(ActionDecision::GameOver),
{
}

/// Law: with no pending command, two successive decision steps of a
/// length-1 snake heading Right, away from the walls, each move the head
/// right by exactly one cell. `g2` is `g1` after the first move was
/// committed.
pub proof fn lemma_straight_continuation(g1: Game, g2: Game)
    requires
        g1.snake()@.len() == 1,
        g1.snake().heading() == Direction::Right,
        0 < g1.snake()@[0].y < g1.dims().1 - 1,
        0 < g1.snake()@[0].x,
        g1.snake()@[0].x + 2 < g1.dims().0 - 1,
        g2.dims() == g1.dims(),
        g2.snake().heading() == Direction::Right,
        g2.snake()@ == advanced(
            g1.snake()@,
            Point { x: (g1.snake()@[0].x + 1) as u16, y: g1.snake()@[0].y },
        ),
    ensures
        g1.spec_decision(None::<Direction>) == Ok::<ActionDecision, Error>(
            ActionDecision::Proceed(
                Head {
                    position: Point { x: (g1.snake()@[0].x + 1) as u16, y: g1.snake()@[0].y },
                    direction: Direction::Right,
                },
            ),
        ),
        g2.spec_decision(None::<Direction>) == Ok::<ActionDecision, Error>(
            ActionDecision::Proceed(
                Head {
                    position: Point { x: (g1.snake()@[0].x + 2) as u16, y: g1.snake()@[0].y },
                    direction: Direction::Right,
                },
            ),
        ),
{
    let p0 = g1.snake()@[0];
    let c1 = Point { x: (p0.x + 1) as u16, y: p0.y };
    let c2 = Point { x: (p0.x + 2) as u16, y: p0.y };
    assert(!g1.snake()@.contains(c1)) by {
        assert forall|i: int| 0 <= i < g1.snake()@.len() implies g1.snake()@[i] != c1 by {
            assert(g1.snake()@[i] == p0);
        }
    }
    assert(g2.snake()@ =~= seq![c1]);
    assert(!g2.snake()@.contains(c2)) by {
        assert forall|i: int| 0 <= i < g2.snake()@.len() implies g2.snake()@[i] != c2 by {
            assert(g2.snake()@[i] == c1);
        }
    }
}

} // verus!
