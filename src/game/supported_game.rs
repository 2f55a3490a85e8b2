//! The games that the bot can play.
use vstd::prelude::*;
use crate::model::text::{chars_eq, to_chars};

verus! {

#[derive(Clone, Copy, PartialEq, Eq, Debug, Structural)]
pub enum SupportedGame {
    FTL,
    NDS,
}

/// The game that a configuration word names.
pub open spec fn game_of(s: Seq<char>) -> Option<SupportedGame> {
    if s == "ftl"@ {
        Some(SupportedGame::FTL)
    } else if s == "nds"@ {
        Some(SupportedGame::NDS)
    } else {
        None
    }
}

/// The display name of a game.
pub open spec fn game_name(g: SupportedGame) -> Seq<char> {
    match g {
        SupportedGame::FTL => "FTL: Faster Than Light"@,
        SupportedGame::NDS => "Nintendo DS"@,
    }
}

impl SupportedGame {
    pub fn from_chars(s: &[char]) -> (r: Result<SupportedGame, ()>)
        ensures
            match r {
                Ok(g) => game_of(s@) == Some(g),
                Err(_) => game_of(s@) is None,
            },
    {
        if chars_eq(s, "ftl") {
            Ok(SupportedGame::FTL)
        } else if chars_eq(s, "nds") {
            Ok(SupportedGame::NDS)
        } else {
            Err(())
        }
    }

    pub fn to_string(&self) -> (r: String)
        ensures
            r@ == game_name(*self),
    {
        match self {
            SupportedGame::FTL => String::from_str("FTL: Faster Than Light"),
            SupportedGame::NDS => String::from_str("Nintendo DS"),
        }
    }
}

impl std::str::FromStr for SupportedGame {
    type Err = ();

    fn from_str(s: &str) -> Result<SupportedGame, ()> {
        let chars = to_chars(s);
        SupportedGame::from_chars(chars.as_slice())
    }
}

} // verus!
