//! What a cell of the derived grid shows.

use crate::loc::Loc;
use vstd::prelude::*;
use vstd::string::StringExecFns;

verus! {

/// The kind of a cell in the derived grid.
#[derive(Debug, Clone, Copy, PartialEq, Eq, Structural)]
pub enum Field {
    Empty,
    Apple,
    Wall,
    Player,
}

/// The kind of the cell `at` on a board with the given player and apples.
///
/// The player hides an apple, an apple hides the wall, and whatever is
/// neither player, apple nor wall is empty.
pub open spec fn classify(player: Loc, apples: Seq<Loc>, at: Loc) -> Field {
    if at == player {
        Field::Player
    } else if apples.contains(at) {
        Field::Apple
    } else if at.on_ring() {
        Field::Wall
    } else {
        Field::Empty
    }
}

impl Field {
    /// The character that stands for a cell of this kind.
    pub open spec fn glyph(self) -> char {
        match self {
            Field::Empty => '.',
            Field::Apple => '*',
            Field::Wall => '#',
            Field::Player => '@',
        }
    }

    /// The one-character text that stands for a cell of this kind.
    pub fn match_field(&self) -> (text: String)
        ensures
            text@ == seq![self.glyph()],
    {
        proof {
            reveal_strlit(".");
            reveal_strlit("*");
            reveal_strlit("#");
            reveal_strlit("@");
        }
        let text = match self {
            Field::Empty => String::from_str("."),
            Field::Apple => String::from_str("*"),
            Field::Wall => String::from_str("#"),
            Field::Player => String::from_str("@"),
        };
        text
    }
}

} // verus!
