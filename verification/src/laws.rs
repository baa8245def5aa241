//! What holds of every board and every turn.

use crate::board::BoardView;
use crate::field::Field;
use crate::loc::{Loc, SIDE};
use crate::moves::{is_white_space, trimmed, Move};
use vstd::prelude::*;

verus! {

/// Drawing the grid twice in a row gives the same board as drawing it once.
pub proof fn lemma_redraw_idempotent(board: BoardView)
    ensures
        board.redrawn().redrawn() == board.redrawn(),
{
}

/// The drawn grid depends on the player and the apples alone: nothing of an
/// earlier grid shows through.
pub proof fn lemma_redraw_forgets(one: BoardView, other: BoardView)
    requires
        one.player == other.player,
        one.apples == other.apples,
    ensures
        one.redrawn().field == other.redrawn().field,
{
}

/// On a board in play the drawn grid has wall on every cell of the outer
/// ring and on no other cell, and shows the player exactly where it stands
/// and an apple exactly where one lies that the player does not stand on.
pub proof fn lemma_drawn_grid(board: BoardView, at: Loc)
    requires
        board.in_play(),
        at.on_board(),
    ensures
        board.redrawn().field.len() == SIDE,
        board.redrawn().field[at.row as int].len() == SIDE,
        board.redrawn().field[at.row as int][at.col as int] == Field::Wall <==> at.on_ring(),
        board.redrawn().field[at.row as int][at.col as int] == Field::Player <==> at
            == board.player,
        board.redrawn().field[at.row as int][at.col as int] == Field::Apple <==> at
            != board.player && board.apples.contains(at),
{
    if board.apples.contains(at) {
        let i = board.apples.index_of(at);
        assert(board.apples[i].in_interior());
    }
}

/// A command never takes a player that stands inside the wall onto the wall
/// or off the board.
pub proof fn lemma_move_stays_inside(board: BoardView, mov: Move)
    requires
        board.player.in_interior(),
    ensures
        board.moved(mov).player.in_interior(),
        !board.moved(mov).player.on_ring(),
{
}

/// An apple is picked up exactly once. Where the player stands on an apple,
/// picking up takes that apple and no other; afterwards no apple lies under
/// the player, so picking up again on the same cell takes nothing.
pub proof fn lemma_collect_exactly_once(board: BoardView)
    requires
        board.apples.no_duplicates(),
    ensures
        board.apples.contains(board.player) ==> board.collected().apples.len()
            == board.apples.len() - 1,
        !board.apples.contains(board.player) ==> board.collected() == board,
        board.collected().apples.to_set() == board.apples.to_set().remove(board.player),
        board.collected().apples.no_duplicates(),
        !board.collected().apples.contains(board.player),
        board.collected().collected() == board.collected(),
{
    let apples = board.apples;
    let left = board.collected().apples;
    apples.index_of_first_ensures(board.player);
    if apples.contains(board.player) {
        let at = apples.index_of_first(board.player).unwrap();
        assert forall|p: Loc| left.contains(p) <==> (apples.contains(p) && p != board.player) by {
            if left.contains(p) {
                let k = left.index_of(p);
                assert(apples[if k < at { k } else { k + 1 }] == p);
            }
            if apples.contains(p) && p != board.player {
                let k = apples.index_of(p);
                assert(left[if k < at { k } else { k - 1 }] == p);
            }
        }
    }
    left.index_of_first_ensures(board.player);
}

/// Within a game the number of apples never grows, and a board in play
/// stays in play.
pub proof fn lemma_turn_keeps_board_in_play(board: BoardView, text: Seq<char>)
    requires
        board.in_play(),
    ensures
        board.after_turn(text).in_play(),
        board.after_turn(text).apples.len() <= board.apples.len(),
{
    let walked = board.commanded(text);
    lemma_collect_exactly_once(walked);
    let left = walked.collected().apples;
    assert forall|i: int| 0 <= i < left.len() implies (#[trigger] left[i]).in_interior() by {
        assert(left.to_set().contains(left[i]));
        let k = walked.apples.index_of(left[i]);
        assert(walked.apples[k].in_interior());
    }
}

/// The game is won exactly in the turn that picks up the last apple: a turn
/// on a board that still holds apples reports a win if and only if one apple
/// was left and the turn picked it up.
pub proof fn lemma_won_at_last_apple(board: BoardView, text: Seq<char>)
    requires
        !board.is_won(),
    ensures
        board.turn(text).won == board.after_turn(text).is_won(),
        board.turn(text).won <==> board.apples.len() == 1 && board.turn(text).eaten,
        !board.commanded(text).is_won(),
{
    let walked = board.commanded(text);
    walked.apples.index_of_first_ensures(walked.player);
}

/// What trimming leaves neither starts nor ends with white space, and
/// trimming it again changes nothing.
pub proof fn lemma_trimmed_is_bare(text: Seq<char>)
    ensures
        trimmed(text).len() > 0 ==> !is_white_space(trimmed(text).first()) && !is_white_space(
            trimmed(text).last(),
        ),
        trimmed(trimmed(text)) == trimmed(text),
        trimmed(text).len() <= text.len(),
    decreases text.len(),
{
    if text.len() > 0 && is_white_space(text.first()) {
        lemma_trimmed_is_bare(text.drop_first());
    } else if text.len() > 0 && is_white_space(text.last()) {
        lemma_trimmed_is_bare(text.drop_last());
    }
}

} // verus!
