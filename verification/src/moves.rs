//! Commands: reading one from a line of input, and carrying one out.

use crate::board::{Board, BoardView};
use crate::loc::{Loc, INNER_MAX, INNER_MIN};
use vstd::prelude::*;
use vstd::string::StrSliceExecFns;

verus! {

/// A step of the player by one cell.
#[derive(Debug, Clone, Copy, PartialEq, Eq, Structural)]
pub enum Move {
    Up,
    Down,
    Left,
    Right,
}

/// What became of a command.
#[derive(Debug, Clone, Copy, PartialEq, Eq, Structural)]
pub enum MoveOutcome {
    /// The player went one cell in the given direction.
    Moved(Move),
    /// The step would have left the cells inside the wall; the player stayed.
    Rejected,
}

/// The character is white space in the sense of Unicode's `White_Space`
/// property, which is what trimming a line removes.
pub open spec fn is_white_space(c: char) -> bool {
    ||| '\u{9}' <= c <= '\u{d}'
    ||| c == ' '
    ||| c == '\u{85}'
    ||| c == '\u{a0}'
    ||| c == '\u{1680}'
    ||| '\u{2000}' <= c <= '\u{200a}'
    ||| c == '\u{2028}'
    ||| c == '\u{2029}'
    ||| c == '\u{202f}'
    ||| c == '\u{205f}'
    ||| c == '\u{3000}'
}

/// The text without the white space at its start and at its end.
pub open spec fn trimmed(text: Seq<char>) -> Seq<char>
    decreases text.len(),
{
    if text.len() > 0 && is_white_space(text.first()) {
        trimmed(text.drop_first())
    } else if text.len() > 0 && is_white_space(text.last()) {
        trimmed(text.drop_last())
    } else {
        text
    }
}

/// The command that a line of input stands for: `w`, `s`, `a` and `d`, with
/// any white space around them, are up, down, left and right. Every other
/// line stands for no command.
pub open spec fn decode(text: Seq<char>) -> Option<Move> {
    let word = trimmed(text);
    if word == seq!['w'] {
        Some(Move::Up)
    } else if word == seq!['s'] {
        Some(Move::Down)
    } else if word == seq!['a'] {
        Some(Move::Left)
    } else if word == seq!['d'] {
        Some(Move::Right)
    } else {
        None
    }
}

/// Tells whether the character is white space.
pub fn is_space(c: char) -> (space: bool)
    ensures
        space == is_white_space(c),
{
    ('\u{9}' <= c && c <= '\u{d}') || c == ' ' || c == '\u{85}' || c == '\u{a0}' || c
        == '\u{1680}' || ('\u{2000}' <= c && c <= '\u{200a}') || c == '\u{2028}' || c
        == '\u{2029}' || c == '\u{202f}' || c == '\u{205f}' || c == '\u{3000}'
}

impl Move {
    /// The row and column that the step leads to from `from`.
    pub open spec fn target(self, from: Loc) -> (int, int) {
        match self {
            Move::Up => (from.row - 1, from.col as int),
            Move::Down => (from.row + 1, from.col as int),
            Move::Left => (from.row as int, from.col - 1),
            Move::Right => (from.row as int, from.col + 1),
        }
    }

    /// The step from `from` is allowed: along the axis of the step, the
    /// target lies inside the wall.
    pub open spec fn allowed(self, from: Loc) -> bool {
        match self {
            Move::Up | Move::Down => INNER_MIN <= self.target(from).0 <= INNER_MAX,
            Move::Left | Move::Right => INNER_MIN <= self.target(from).1 <= INNER_MAX,
        }
    }

    /// Where the player stands after the command: at the target of the step
    /// if the step is allowed, else where it stood.
    pub open spec fn arrive(self, from: Loc) -> Loc {
        if self.allowed(from) {
            Loc { row: self.target(from).0 as usize, col: self.target(from).1 as usize }
        } else {
            from
        }
    }

    /// What is reported of the command given at `from`.
    pub open spec fn outcome(self, from: Loc) -> MoveOutcome {
        if self.allowed(from) {
            MoveOutcome::Moved(self)
        } else {
            MoveOutcome::Rejected
        }
    }

    /// Reads a command from a line of input, as [`decode`] says.
    pub fn match_move(user_input: String) -> (command: Option<Move>)
        ensures
            command == decode(user_input@),
    {
        let text = user_input.as_str();
        let len = text.unicode_len();
        let mut start: usize = 0;
        assert(text@.subrange(0, len as int) =~= text@);
        while start < len && is_space(text.get_char(start))
            invariant
                start <= len == text@.len(),
                trimmed(text@) == trimmed(text@.subrange(start as int, len as int)),
            decreases len - start,
        {
            proof {
                let rest = text@.subrange(start as int, len as int);
                assert(rest.drop_first() =~= text@.subrange(start + 1, len as int));
            }
            start += 1;
        }
        let mut end: usize = len;
        while end > start && is_space(text.get_char(end - 1))
            invariant
                start <= end <= len == text@.len(),
                start < len ==> !is_white_space(text@[start as int]),
                trimmed(text@) == trimmed(text@.subrange(start as int, end as int)),
            decreases end - start,
        {
            proof {
                let rest = text@.subrange(start as int, end as int);
                assert(rest.drop_last() =~= text@.subrange(start as int, end - 1));
            }
            end -= 1;
        }
        let ghost word = text@.subrange(start as int, end as int);
        if end - start != 1 {
            return None;
        }
        let c = text.get_char(start);
        assert(word =~= seq![c]);
        if c == 'w' {
            Some(Move::Up)
        } else if c == 's' {
            Some(Move::Down)
        } else if c == 'a' {
            Some(Move::Left)
        } else if c == 'd' {
            Some(Move::Right)
        } else {
            None
        }
    }

    /// Carries out a command: the player goes one cell in the direction of
    /// `mov` if that cell lies inside the wall along the axis of the step,
    /// and stays where it is otherwise. Apples and grid are left as they are.
    pub fn make_move(mov: Move, board: &mut Board) -> (outcome: MoveOutcome)
        ensures
            final(board)@ == old(board)@.moved(mov),
            outcome == mov.outcome(old(board)@.player),
            old(board)@.player.in_interior() ==> final(board)@.player.in_interior(),
    {
        let row = board.player_position.row;
        let col = board.player_position.col;
        match mov {
            Move::Up => {
                if INNER_MIN < row && row <= INNER_MAX + 1 {
                    board.player_position.row = row - 1;
                    return MoveOutcome::Moved(mov);
                }
            },
            Move::Down => {
                if row < INNER_MAX && INNER_MIN <= row + 1 {
                    board.player_position.row = row + 1;
                    return MoveOutcome::Moved(mov);
                }
            },
            Move::Left => {
                if INNER_MIN < col && col <= INNER_MAX + 1 {
                    board.player_position.col = col - 1;
                    return MoveOutcome::Moved(mov);
                }
            },
            Move::Right => {
                if col < INNER_MAX && INNER_MIN <= col + 1 {
                    board.player_position.col = col + 1;
                    return MoveOutcome::Moved(mov);
                }
            },
        }
        MoveOutcome::Rejected
    }
}

impl BoardView {
    /// The board after the command `mov`.
    pub open spec fn moved(self, mov: Move) -> BoardView {
        BoardView { player: mov.arrive(self.player), ..self }
    }
}

} // verus!
