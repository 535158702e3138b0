use std::collections::VecDeque;

use snake_game::board::Board;
use snake_game::game::{ActionDecision, ActionKey, Game};
use snake_game::point::Point;
use snake_game::snake::{Direction, Head, Snake};

fn game_with(points: &[(u16, u16)], direction: Direction, food: (u16, u16)) -> Game {
    let mut body = VecDeque::new();
    for &(x, y) in points {
        body.push_back(Point::new(x, y));
    }
    Game::with_state((10, 10), Snake::from_body(body, direction), Point::new(food.0, food.1))
}

#[test]
fn boundary_rejection_all_walls() {
    let left = game_with(&[(1, 5)], Direction::Left, (7, 7));
    assert_eq!(left.update(ActionKey::Idle), Ok(ActionDecision::GameOver));
    let right = game_with(&[(8, 5)], Direction::Right, (7, 7));
    assert_eq!(right.update(ActionKey::Idle), Ok(ActionDecision::GameOver));
    let up = game_with(&[(5, 1)], Direction::Up, (7, 7));
    assert_eq!(up.update(ActionKey::Idle), Ok(ActionDecision::GameOver));
    let down = game_with(&[(5, 8)], Direction::Down, (7, 7));
    assert_eq!(down.update(ActionKey::Idle), Ok(ActionDecision::GameOver));
}

#[test]
fn interior_move_proceeds() {
    let g = game_with(&[(2, 5)], Direction::Left, (7, 7));
    assert_eq!(
        g.check_movement(Some(Direction::Up)),
        Ok(ActionDecision::Proceed(Head { position: Point::new(2, 4), direction: Direction::Up }))
    );
}

#[test]
fn self_collision_reversal_rejected() {
    let g = game_with(&[(4, 5), (5, 5)], Direction::Left, (7, 7));
    assert_eq!(g.update(ActionKey::Move(Direction::Right)), Ok(ActionDecision::GameOver));
}

#[test]
fn straight_continuation_two_ticks() {
    let mut g = game_with(&[(2, 5)], Direction::Right, (7, 7));
    let first = g.update(ActionKey::Idle).unwrap();
    assert_eq!(
        first,
        ActionDecision::Proceed(Head { position: Point::new(3, 5), direction: Direction::Right })
    );
    match first {
        ActionDecision::Proceed(h) => g.commit_move(h),
        ActionDecision::GameOver => unreachable!(),
    }
    let second = g.update(ActionKey::Idle).unwrap();
    assert_eq!(
        second,
        ActionDecision::Proceed(Head { position: Point::new(4, 5), direction: Direction::Right })
    );
}

#[test]
fn exit_command_ends_session() {
    let g = game_with(&[(5, 5)], Direction::Left, (7, 7));
    assert_eq!(g.update(ActionKey::Exit), Ok(ActionDecision::GameOver));
}

#[test]
fn action_key_mapping() {
    let g = game_with(&[(5, 5)], Direction::Left, (7, 7));
    assert_eq!(g.get_action_key(Some('w')), ActionKey::Move(Direction::Up));
    assert_eq!(g.get_action_key(Some('s')), ActionKey::Move(Direction::Down));
    assert_eq!(g.get_action_key(Some('a')), ActionKey::Move(Direction::Left));
    assert_eq!(g.get_action_key(Some('d')), ActionKey::Move(Direction::Right));
    assert_eq!(g.get_action_key(Some('q')), ActionKey::Exit);
    assert_eq!(g.get_action_key(Some('x')), ActionKey::Idle);
    assert_eq!(g.get_action_key(None), ActionKey::Idle);
}

#[test]
fn process_food_untouched_changes_nothing() {
    let mut g = game_with(&[(5, 5)], Direction::Left, (7, 7));
    assert_eq!(g.process_food(), Ok(()));
    assert_eq!(g.get_snake().get_length(), 1);
    assert_eq!(g.get_food_position(), Point::new(7, 7));
}

#[test]
fn food_relocates_to_only_free_cell() {
    let mut body = VecDeque::new();
    body.push_back(Point::new(1, 1));
    let mut g = Game::with_state(
        (4, 3),
        Snake::from_body(body, Direction::Left),
        Point::new(1, 1),
    );
    assert_eq!(g.process_food(), Ok(()));
    assert_eq!(g.get_snake().get_length(), 2);
    assert_eq!(g.get_food_position(), Point::new(2, 1));
}

#[test]
fn food_stays_put_when_body_covers_interior() {
    let mut body = VecDeque::new();
    body.push_back(Point::new(1, 1));
    let mut g = Game::with_state(
        (3, 3),
        Snake::from_body(body, Direction::Left),
        Point::new(1, 1),
    );
    assert_eq!(g.process_food(), Ok(()));
    assert_eq!(g.get_snake().get_length(), 2);
    assert_eq!(g.get_food_position(), Point::new(1, 1));
    assert_eq!(g.update(ActionKey::Idle), Ok(ActionDecision::GameOver));
}

#[test]
fn generate_new_food_misses_body() {
    let mut g = game_with(&[(5, 5)], Direction::Left, (5, 5));
    g.generate_new_food();
    let food = g.get_food_position();
    assert!(!g.get_snake().does_point_intersect(&food));
    assert!(1 <= food.x && food.x <= 8);
    assert!(1 <= food.y && food.y <= 8);
}

#[test]
fn end_to_end_growth_tick() {
    let mut g = game_with(&[(5, 5)], Direction::Left, (5, 5));
    assert_eq!(g.process_food(), Ok(()));
    let food = g.get_food_position();
    assert!(!g.get_snake().does_point_intersect(&food));
    assert!(1 <= food.x && food.x <= 8);
    assert!(1 <= food.y && food.y <= 8);
    let decision = g.update(ActionKey::Idle).unwrap();
    assert_eq!(
        decision,
        ActionDecision::Proceed(Head { position: Point::new(4, 5), direction: Direction::Left })
    );
    match decision {
        ActionDecision::Proceed(h) => g.commit_move(h),
        ActionDecision::GameOver => unreachable!(),
    }
    assert_eq!(g.get_snake().get_length(), 2);
    assert_eq!(g.get_snake().get_current_head_position(), Ok(&Point::new(4, 5)));
    assert_eq!(g.get_snake().get_current_tail_position(), Ok(&Point::new(5, 5)));
}

#[test]
fn board_dimensions_kept() {
    let b = Board::new((12, 7));
    assert_eq!(b.get_dimensions(), (12, 7));
    let g = game_with(&[(5, 5)], Direction::Left, (7, 7));
    assert_eq!(g.get_board().get_dimensions(), (10, 10));
}

#[test]
fn random_point_on_smallest_board() {
    let b = Board::new((3, 3));
    assert_eq!(b.random_point(), Point::new(1, 1));
}

#[test]
fn new_game_starts_in_interior() {
    let g = Game::new((10, 10));
    assert_eq!(g.get_snake().get_length(), 1);
    let head = *g.get_snake().get_current_head_position().unwrap();
    assert!(1 <= head.x && head.x <= 8);
    assert!(1 <= head.y && head.y <= 8);
    let food = g.get_food_position();
    assert!(1 <= food.x && food.x <= 8);
    assert!(1 <= food.y && food.y <= 8);
    let heading = g.get_snake().calculate_new_head(None).unwrap();
    assert_eq!(heading.direction, Direction::Left);
}
