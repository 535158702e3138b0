//! A verified core for a terminal snake game: the grid geometry, the
//! snake's movement, growth and collision logic, and the per-tick decision
//! procedure, each behind a proved contract. Drawing and key capture are
//! left to a front end, which exchanges plain values with this library.

pub mod board;
pub mod error;
pub mod game;
pub mod point;
pub mod snake;
pub mod utils;
