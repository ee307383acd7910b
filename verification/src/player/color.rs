//! The colours that a player may take.

use vstd::prelude::*;

verus! {

/// The colours of the players.
#[derive(Debug, Clone, Copy, PartialEq, Eq, Hash, Structural)]
pub enum PlayerColor {
    Red,
    Blue,
    Green,
    Yellow,
    Purple,
    Orange,
    Black,
    White,
}

} // verus!
