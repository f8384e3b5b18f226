//! Kinds and categories of games, and the requests that list and create them.

use vstd::prelude::*;
use vstd::string::StringExecFns;

verus! {

/// The audience a game is meant for.
#[derive(Debug, Clone, Copy, PartialEq, Eq, Structural, Hash)]
pub enum GameCategory {
    Casual,
    Random,
    Ladies,
    Boys,
    Default,
}

impl GameCategory {
    /// The lower-case name of the category.
    pub open spec fn label_spec(self) -> Seq<char> {
        match self {
            GameCategory::Casual => "casual"@,
            GameCategory::Random => "random"@,
            GameCategory::Ladies => "ladies"@,
            GameCategory::Boys => "boys"@,
            GameCategory::Default => "default"@,
        }
    }

    /// The lower-case name of the category, as text.
    pub fn label(&self) -> (text: String)
        ensures
            text@ == self.label_spec(),
    {
        match self {
            GameCategory::Casual => String::from_str("casual"),
            GameCategory::Random => String::from_str("random"),
            GameCategory::Ladies => String::from_str("ladies"),
            GameCategory::Boys => String::from_str("boys"),
            GameCategory::Default => String::from_str("default"),
        }
    }
}

/// The gender a user states.
#[derive(Debug, Clone, Copy, PartialEq, Eq, Structural)]
pub enum Gender {
    Male,
    Female,
    Unknown,
}

/// The kind of a game.
#[derive(Debug, Clone, Copy, PartialEq, Eq, Structural, Hash)]
pub enum GameType {
    Quiz,
    Spin,
}

impl GameType {
    /// The name of the table that holds games of this kind.
    pub open spec fn label_spec(self) -> Seq<char> {
        match self {
            GameType::Quiz => "quiz_game"@,
            GameType::Spin => "spin_game"@,
        }
    }

    /// The name of the table that holds games of this kind, as text.
    pub fn label(&self) -> (text: String)
        ensures
            text@ == self.label_spec(),
    {
        match self {
            GameType::Quiz => String::from_str("quiz_game"),
            GameType::Spin => String::from_str("spin_game"),
        }
    }
}

/// How far a quiz has come.
#[derive(Debug, Clone, Copy, PartialEq, Eq, Structural)]
pub enum QuizGameState {
    Initialized,
    Started,
}

/// A request for one page of games, of one category or of all.
#[derive(Debug, Hash)]
pub struct GamePageQuery {
    pub page_num: u16,
    pub category: Option<GameCategory>,
}

/// A request for one page of a user's saved games.
#[derive(Debug)]
pub struct SavedGamePageQuery {
    pub page_num: u8,
}

/// A request to create a game.
#[derive(Debug)]
pub struct CreateGameRequest {
    pub name: String,
    pub description: Option<String>,
    pub category: Option<GameCategory>,
}

impl CreateGameRequest {
    /// The category the game is created in: the one asked for, or the default.
    pub fn category_or_default(&self) -> (category: GameCategory)
        ensures
            category == match self.category {
                Some(c) => c,
                None => GameCategory::Default,
            },
    {
        match self.category {
            Some(c) => c,
            None => GameCategory::Default,
        }
    }
}

} // verus!
