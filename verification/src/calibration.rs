//! The positions of the accelerometer calibration wizard.
use vstd::prelude::*;

verus! {

/// A side that the remote lies on during calibration: the axis that points
/// up, and its direction.
#[derive(Clone, Copy, Debug, PartialEq, Eq, Structural)]
pub enum Position {
    PosX,
    NegX,
    PosY,
    NegY,
    PosZ,
    NegZ,
}

pub open spec fn position_index(p: Position) -> nat {
    match p {
        Position::PosX => 0,
        Position::NegX => 1,
        Position::PosY => 2,
        Position::NegY => 3,
        Position::PosZ => 4,
        Position::NegZ => 5,
    }
}

impl Position {
    /// The index of the position's sample in the calibration data.
    pub fn index(&self) -> (r: usize)
        ensures
            r == position_index(*self),
            r < 6,
    {
        match self {
            Position::PosX => 0,
            Position::NegX => 1,
            Position::PosY => 2,
            Position::NegY => 3,
            Position::PosZ => 4,
            Position::NegZ => 5,
        }
    }
}

/// The order in which the wizard asks for the positions: both sides of Z,
/// then of X, then of Y.
pub fn calibration_order() -> (r: Vec<Position>)
    ensures
        r@ == seq![Position::PosZ, Position::NegZ, Position::PosX, Position::NegX, Position::PosY, Position::NegY],
{
    vec![Position::PosZ, Position::NegZ, Position::PosX, Position::NegX, Position::PosY, Position::NegY]
}

} // verus!
