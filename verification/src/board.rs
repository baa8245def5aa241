//! The board: where the player and the apples are, and the grid derived from them.

use crate::field::{classify, Field};
use crate::loc::{Loc, SIDE};
use vstd::prelude::*;
use vstd::string::StringExecFns;

verus! {

/// The state of one game.
///
/// `apples_positions` and `player_position` are what the game is about.
/// `field` is a picture of them, drawn afresh by [`Board::update_board`]
/// whenever the board is to be shown, and never read by the rules.
#[derive(Debug, Clone)]
pub struct Board {
    pub field: Vec<Vec<Field>>,
    pub apples_positions: Vec<Loc>,
    pub player_position: Loc,
}

/// A board as a mathematical value.
#[verifier::ext_equal]
pub struct BoardView {
    pub field: Seq<Seq<Field>>,
    pub apples: Seq<Loc>,
    pub player: Loc,
}

/// The rows of a grid as sequences.
pub open spec fn grid_view(field: Seq<Vec<Field>>) -> Seq<Seq<Field>> {
    Seq::new(field.len(), |r: int| field[r]@)
}

/// The grid that shows the given player and apples: `SIDE` rows of `SIDE`
/// cells, each as [`classify`] says.
pub open spec fn derived_grid(player: Loc, apples: Seq<Loc>) -> Seq<Seq<Field>> {
    Seq::new(
        SIDE as nat,
        |r: int|
            Seq::new(
                SIDE as nat,
                |c: int| classify(player, apples, Loc { row: r as usize, col: c as usize }),
            ),
    )
}

/// The line of text that shows a row of cells: the glyph of each cell, with
/// one space between neighbours and none at either end.
pub open spec fn row_text(cells: Seq<Field>) -> Seq<char>
    decreases cells.len(),
{
    if cells.len() == 0 {
        Seq::empty()
    } else if cells.len() == 1 {
        seq![cells[0].glyph()]
    } else {
        row_text(cells.drop_last()) + seq![' ', cells.last().glyph()]
    }
}

/// The grid of a board on which nothing has been drawn yet.
pub open spec fn blank_grid() -> Seq<Seq<Field>> {
    Seq::new(SIDE as nat, |r: int| Seq::new(SIDE as nat, |c: int| Field::Empty))
}

impl View for Board {
    type V = BoardView;

    open spec fn view(&self) -> BoardView {
        BoardView {
            field: grid_view(self.field@),
            apples: self.apples_positions@,
            player: self.player_position,
        }
    }
}

impl BoardView {
    /// The board before anything is placed on it: no apples, the player
    /// parked at the corner `(0, 0)`, outside the cells it will walk on, and
    /// a blank grid.
    pub open spec fn initial() -> BoardView {
        BoardView {
            field: blank_grid(),
            apples: Seq::empty(),
            player: Loc { row: 0, col: 0 },
        }
    }

    /// No cell holds two apples, and every apple lies inside the wall.
    pub open spec fn apples_well_placed(self) -> bool {
        &&& self.apples.no_duplicates()
        &&& forall|i: int| 0 <= i < self.apples.len() ==> (#[trigger] self.apples[i]).in_interior()
    }

    /// The board is one that a game can be played on: the apples are well
    /// placed and the player stands inside the wall.
    pub open spec fn in_play(self) -> bool {
        self.apples_well_placed() && self.player.in_interior()
    }

    /// All apples have been eaten.
    pub open spec fn is_won(self) -> bool {
        self.apples.len() == 0
    }

    /// The board with its grid drawn afresh from player and apples.
    pub open spec fn redrawn(self) -> BoardView {
        BoardView { field: derived_grid(self.player, self.apples), ..self }
    }

    /// The board after the player has picked up the apple under its feet, if
    /// there is one.
    pub open spec fn collected(self) -> BoardView {
        BoardView { apples: self.apples.remove_value(self.player), ..self }
    }
}

impl Board {
    /// A board with no apples, the player parked at `(0, 0)` and a blank
    /// grid of 8×8 cells.
    pub fn initialize_board() -> (board: Board)
        ensures
            board@ == BoardView::initial(),
    {
        let mut field: Vec<Vec<Field>> = Vec::new();
        let mut row: usize = 0;
        while row < SIDE
            invariant
                row <= SIDE,
                field@.len() == row,
                forall|r: int|
                    0 <= r < row ==> (#[trigger] field@[r])@ == Seq::new(
                        SIDE as nat,
                        |c: int| Field::Empty,
                    ),
            decreases SIDE - row,
        {
            let mut cells: Vec<Field> = Vec::new();
            let mut col: usize = 0;
            while col < SIDE
                invariant
                    col <= SIDE,
                    cells@.len() == col,
                    forall|c: int| 0 <= c < col ==> cells@[c] == Field::Empty,
                decreases SIDE - col,
            {
                cells.push(Field::Empty);
                col += 1;
            }
            field.push(cells);
            row += 1;
        }
        Board { field, apples_positions: Vec::new(), player_position: Loc { row: 0, col: 0 } }
    }

    /// Tells whether an apple lies at `at`.
    pub fn has_apple(&self, at: Loc) -> (found: bool)
        ensures
            found == self@.apples.contains(at),
    {
        let mut i: usize = 0;
        while i < self.apples_positions.len()
            invariant
                i <= self.apples_positions@.len(),
                forall|k: int| 0 <= k < i ==> self.apples_positions@[k] != at,
            decreases self.apples_positions@.len() - i,
        {
            if self.apples_positions[i] == at {
                return true;
            }
            i += 1;
        }
        false
    }

    /// The kind of the cell `at`, from where the player and the apples are now.
    pub fn cell_kind(&self, at: Loc) -> (kind: Field)
        ensures
            kind == classify(self@.player, self@.apples, at),
    {
        if at == self.player_position {
            Field::Player
        } else if self.has_apple(at) {
            Field::Apple
        } else if at.is_ring() {
            Field::Wall
        } else {
            Field::Empty
        }
    }

    /// Draws the grid afresh: every one of the 8×8 cells is set to what
    /// [`classify`] says of it, whatever the grid held before. Player and
    /// apples are left as they are.
    pub fn update_board(&mut self)
        ensures
            final(self)@ == old(self)@.redrawn(),
    {
        let mut field: Vec<Vec<Field>> = Vec::new();
        let mut row: usize = 0;
        while row < SIDE
            invariant
                row <= SIDE,
                *self == *old(self),
                field@.len() == row,
                forall|r: int|
                    0 <= r < row ==> (#[trigger] field@[r])@ == derived_grid(
                        self@.player,
                        self@.apples,
                    )[r],
            decreases SIDE - row,
        {
            let mut cells: Vec<Field> = Vec::new();
            let mut col: usize = 0;
            while col < SIDE
                invariant
                    col <= SIDE,
                    row < SIDE,
                    *self == *old(self),
                    cells@.len() == col,
                    forall|c: int|
                        0 <= c < col ==> cells@[c] == classify(
                            self@.player,
                            self@.apples,
                            Loc { row, col: c as usize },
                        ),
                decreases SIDE - col,
            {
                let kind = self.cell_kind(Loc { row, col });
                cells.push(kind);
                col += 1;
            }
            field.push(cells);
            row += 1;
        }
        self.field = field;
    }

    /// The grid as text, one line for each row, as [`row_text`] says. The
    /// lines carry no line ending.
    pub fn render_rows(&self) -> (rows: Vec<String>)
        ensures
            rows@.len() == self@.field.len(),
            forall|r: int|
                0 <= r < rows@.len() ==> (#[trigger] rows@[r])@ == row_text(self@.field[r]),
    {
        let mut rows: Vec<String> = Vec::new();
        let mut r: usize = 0;
        while r < self.field.len()
            invariant
                r <= self.field@.len(),
                rows@.len() == r,
                forall|k: int| 0 <= k < r ==> (#[trigger] rows@[k])@ == row_text(self@.field[k]),
            decreases self.field@.len() - r,
        {
            let cells = &self.field[r];
            let mut line = String::new();
            let mut c: usize = 0;
            while c < cells.len()
                invariant
                    c <= cells@.len(),
                    line@ == row_text(cells@.subrange(0, c as int)),
                decreases cells@.len() - c,
            {
                proof {
                    reveal_strlit(" ");
                    let shown = cells@.subrange(0, c + 1);
                    assert(shown.drop_last() =~= cells@.subrange(0, c as int));
                }
                if c > 0 {
                    line.append(" ");
                }
                let glyph = cells[c].match_field();
                line.append(glyph.as_str());
                c += 1;
            }
            assert(cells@.subrange(0, c as int) =~= cells@);
            rows.push(line);
            r += 1;
        }
        rows
    }

    /// Tells whether the game is won: no apple is left.
    pub fn no_apples_left(&self) -> (won: bool)
        ensures
            won == self@.is_won(),
    {
        self.apples_positions.is_empty()
    }

    /// Picks up the apple under the player's feet, if there is one, and tells
    /// whether there was one. The other apples stay, in their order.
    pub fn remove_apples(&mut self) -> (eaten: bool)
        ensures
            final(self)@ == old(self)@.collected(),
            eaten == old(self)@.apples.contains(old(self)@.player),
            eaten ==> final(self)@.apples.len() == old(self)@.apples.len() - 1,
            !eaten ==> final(self)@ == old(self)@,
    {
        let mut i: usize = 0;
        while i < self.apples_positions.len()
            invariant
                *self == *old(self),
                i <= self.apples_positions@.len(),
                forall|k: int| 0 <= k < i ==> self.apples_positions@[k] != self.player_position,
            decreases self.apples_positions@.len() - i,
        {
            if self.apples_positions[i] == self.player_position {
                proof {
                    self@.apples.index_of_first_ensures(self@.player);
                }
                self.apples_positions.remove(i);
                return true;
            }
            i += 1;
        }
        proof {
            self@.apples.index_of_first_ensures(self@.player);
        }
        false
    }
}

} // verus!
