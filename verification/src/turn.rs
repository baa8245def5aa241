//! One turn of the game: a line of input is read as a command, the command
//! is carried out, an apple is picked up, and a won game starts anew.
//!
//! A line that stands for no command is a turn in which the player stays
//! where it is; it is not an error and nothing is reported of it.

use crate::board::{Board, BoardView};
use crate::laws::lemma_turn_keeps_board_in_play;
use crate::moves::{decode, Move, MoveOutcome};
use crate::placement::PlacementError;
use rand::rngs::ThreadRng;
use vstd::prelude::*;

verus! {

/// What happened in one turn.
#[derive(Debug, Clone, Copy, PartialEq, Eq)]
pub struct Turn {
    /// What became of the command, or `None` if the line held no command.
    pub outcome: Option<MoveOutcome>,
    /// The player picked up an apple.
    pub eaten: bool,
    /// The turn left no apple on the board: the game is won.
    pub won: bool,
}

impl BoardView {
    /// The board after the line `text` has been read and obeyed.
    pub open spec fn commanded(self, text: Seq<char>) -> BoardView {
        match decode(text) {
            Some(mov) => self.moved(mov),
            None => self,
        }
    }

    /// The board at the end of the turn that the line `text` starts: the
    /// command is obeyed, then the apple under the player is picked up.
    pub open spec fn after_turn(self, text: Seq<char>) -> BoardView {
        self.commanded(text).collected()
    }

    /// What is reported of the turn that the line `text` starts.
    pub open spec fn turn(self, text: Seq<char>) -> Turn {
        Turn {
            outcome: match decode(text) {
                Some(mov) => Some(mov.outcome(self.player)),
                None => None,
            },
            eaten: self.commanded(text).apples.contains(self.commanded(text).player),
            won: self.after_turn(text).is_won(),
        }
    }
}

impl Board {
    /// Reads a command from a line of input and carries it out. A line that
    /// holds no command leaves the board as it is.
    pub fn update_player_position(&mut self, user_input: String) -> (outcome: Option<MoveOutcome>)
        ensures
            final(self)@ == old(self)@.commanded(user_input@),
            outcome == old(self)@.turn(user_input@).outcome,
    {
        match Move::match_move(user_input) {
            Some(matched_move) => Some(Move::make_move(matched_move, self)),
            None => None,
        }
    }

    /// Plays one turn on this board: the command in `user_input` is carried
    /// out, the apple under the player is picked up, and the board is asked
    /// whether any apple is left.
    pub fn take_turn(&mut self, user_input: String) -> (turn: Turn)
        ensures
            final(self)@ == old(self)@.after_turn(user_input@),
            turn == old(self)@.turn(user_input@),
            old(self)@.in_play() ==> final(self)@.in_play(),
    {
        proof {
            if self@.in_play() {
                lemma_turn_keeps_board_in_play(self@, user_input@);
            }
        }
        let outcome = self.update_player_position(user_input);
        let eaten = self.remove_apples();
        let won = self.no_apples_left();
        Turn { outcome, eaten, won }
    }

    /// Plays one turn, and lays out a new board if the turn won the game.
    ///
    /// A turn that leaves an apple on the board always succeeds, and leaves
    /// the board as [`BoardView::after_turn`] says. A turn that wins the game
    /// puts a freshly laid out board, with a blank grid, in the place of the
    /// old one; if that layout fails, the error is returned and the board is
    /// left as the turn left it, without apples.
    pub fn play_turn(&mut self, user_input: String, rng: &mut ThreadRng) -> (played: Result<
        Turn,
        PlacementError,
    >)
        ensures
            match played {
                Ok(turn) => {
                    &&& turn == old(self)@.turn(user_input@)
                    &&& turn.won ==> final(self)@.freshly_laid_out() && final(self)@.field
                        == BoardView::initial().field
                    &&& !turn.won ==> final(self)@ == old(self)@.after_turn(user_input@)
                },
                Err(_) => {
                    &&& old(self)@.turn(user_input@).won
                    &&& final(self)@ == old(self)@.after_turn(user_input@)
                },
            },
            !old(self)@.turn(user_input@).won ==> played is Ok,
            old(self)@.in_play() ==> final(self)@.in_play(),
    {
        let turn = self.take_turn(user_input);
        if turn.won {
            match Board::new_game(rng) {
                Ok(board) => {
                    *self = board;
                },
                Err(e) => {
                    return Err(e);
                },
            }
        }
        Ok(turn)
    }
}

} // verus!
