//! The categories of the game catalogue.

use vstd::prelude::*;

verus! {

/// The category a game is listed under.
#[derive(Clone, Copy, Debug, PartialEq, Eq, Structural)]
pub enum GameCategory {
    Fighting,
    Roleplay,
    Simulator,
    Horror,
    Obby,
    Classic,
    Sports,
}

/// The label of each category.
pub open spec fn category_label(category: GameCategory) -> Seq<char> {
    match category {
        GameCategory::Fighting => "Fighting"@,
        GameCategory::Roleplay => "Roleplay"@,
        GameCategory::Simulator => "Simulator"@,
        GameCategory::Horror => "Horror"@,
        GameCategory::Obby => "Obby"@,
        GameCategory::Classic => "Classic"@,
        GameCategory::Sports => "Sports"@,
    }
}

impl GameCategory {
    /// The label shown for this category.
    pub fn label(&self) -> (text: &'static str)
        ensures
            text@ == category_label(*self),
    {
        match self {
            GameCategory::Fighting => "Fighting",
            GameCategory::Roleplay => "Roleplay",
            GameCategory::Simulator => "Simulator",
            GameCategory::Horror => "Horror",
            GameCategory::Obby => "Obby",
            GameCategory::Classic => "Classic",
            GameCategory::Sports => "Sports",
        }
    }
}

} // verus!
