//! Names of the remote's inputs, as its event streams report them.
use vstd::prelude::*;

verus! {

/// An input that the Wii Remote can report.
#[derive(Clone, Copy, Debug, PartialEq, Eq, Structural, Hash, PartialOrd, Ord)]
pub enum WiimoteEvents {
    A,
    B,
    Up,
    Down,
    Left,
    Right,
    Plus,
    Minus,
    Home,
    Btn1,
    Btn2,
    IRAbsX,
    IRAbsY,
}

} // verus!
