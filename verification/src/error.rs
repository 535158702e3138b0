use vstd::prelude::*;

verus! {

/// The failure modes of the game's core operations.
///
/// `NegativePoint` and `EmptySnake` arise from the movement logic itself;
/// `ConversionError` marks a coordinate that cannot be narrowed back to
/// `u16`; `IoError` stands for a failure of the terminal backend, which the
/// core never produces on its own.
#[derive(Clone, Copy, PartialEq, Eq, Structural, Debug)]
pub enum Error {
    IoError,
    ConversionError,
    EmptySnake,
    NegativePoint,
}

} // verus!
