//! The kinds of surface that a troop can be on.

use vstd::prelude::*;

verus! {

/// Land and sea.
#[derive(Debug, Clone, Copy, PartialEq, Eq, Hash, Structural)]
pub enum Surface {
    Land,
    Sea,
}

impl Surface {
    /// The name of the surface: `"land"` or `"sea"`.
    pub fn to_string(&self) -> (name: String)
        ensures
            name@ == match self {
                Surface::Land => "land"@,
                Surface::Sea => "sea"@,
            },
    {
        match self {
            Surface::Land => "land".to_owned(),
            Surface::Sea => "sea".to_owned(),
        }
    }
}

} // verus!
