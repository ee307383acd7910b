//! The languages that a player can choose.

use vstd::prelude::*;

verus! {

/// The languages of the game.
#[derive(Debug, Clone, Copy, PartialEq, Eq, Hash, Structural)]
pub enum AvailableLanguage {
    InternationalEnglish,
    BrazilianPortuguese,
    AmericanSpanish,
}

} // verus!
