//! Laying out a board at random: seven apples on distinct cells inside the
//! wall, then the player on a cell that holds no apple.

use crate::board::{Board, BoardView};
use crate::loc::{Loc, INNER_MAX, INNER_MIN};
use rand::rngs::ThreadRng;
use rand::Rng;
use vstd::prelude::*;

verus! {

/// Number of apples on a freshly laid out board.
pub const APPLES: usize = 7;

/// Number of cells that one placement may draw before it gives up.
///
/// With a fair generator a placement needs a handful of draws; the limit only
/// keeps a broken generator from holding the game up for ever.
pub const MAX_DRAWS: usize = 10_000;

/// Why a board could not be laid out.
#[derive(Debug, Clone, Copy, PartialEq, Eq, Structural)]
pub enum PlacementError {
    /// `MAX_DRAWS` cells were drawn and still a free cell was wanting.
    DrawsExhausted,
}

/// `rand`'s handle to the generator of the running thread. Nothing is known
/// of what it holds.
#[verifier::external_type_specification]
#[verifier::external_body]
pub struct ExThreadRng(ThreadRng);

/// Draws a number with `rand::Rng::gen_range` on the inclusive range
/// `low..=high`.
///
/// Trusted: the number drawn lies in the range. `gen_range` panics on an
/// empty range, hence the precondition. Which number comes is left open, and
/// so is the state in which the generator is left. The generator stops the
/// process if the operating system denies it fresh entropy when it reseeds;
/// no argument of this function has a part in that.
#[verifier::external_body]
fn draw_between(rng: &mut ThreadRng, low: usize, high: usize) -> (drawn: usize)
    requires
        low <= high,
    ensures
        low <= drawn <= high,
{
    rng.gen_range(low..=high)
}

/// Draws a cell inside the wall: first its row, then its column.
pub fn draw_interior(rng: &mut ThreadRng) -> (at: Loc)
    ensures
        at.in_interior(),
{
    let row: usize = draw_between(rng, INNER_MIN, INNER_MAX);
    let col: usize = draw_between(rng, INNER_MIN, INNER_MAX);
    Loc { row, col }
}

/// `after` is `before` with apples added at its end, each of them inside the
/// wall and on a cell that held no apple when it was added.
pub open spec fn apples_added(before: Seq<Loc>, after: Seq<Loc>) -> bool {
    &&& before.len() <= after.len()
    &&& after.subrange(0, before.len() as int) == before
    &&& forall|i: int|
        before.len() <= i < after.len() ==> {
            &&& (#[trigger] after[i]).in_interior()
            &&& !after.subrange(0, i).contains(after[i])
        }
}

/// Every cell inside the wall holds an apple.
pub open spec fn interior_full(apples: Seq<Loc>) -> bool {
    forall|at: Loc| at.in_interior() ==> apples.contains(at)
}

/// No cell inside the wall holds an apple.
pub open spec fn interior_free(apples: Seq<Loc>) -> bool {
    forall|at: Loc| at.in_interior() ==> !apples.contains(at)
}

impl BoardView {
    /// The board with an apple at `at`, unless one lay there already.
    pub open spec fn with_apple(self, at: Loc) -> BoardView {
        if self.apples.contains(at) {
            self
        } else {
            BoardView { apples: self.apples.push(at), ..self }
        }
    }

    /// The board with the player at `at`, unless an apple lies there.
    pub open spec fn with_player(self, at: Loc) -> BoardView {
        if self.apples.contains(at) {
            self
        } else {
            BoardView { player: at, ..self }
        }
    }

    /// The board is as a fresh layout leaves it: exactly seven apples, on
    /// distinct cells inside the wall, and the player inside the wall on a
    /// cell without an apple.
    pub open spec fn freshly_laid_out(self) -> bool {
        &&& self.apples.len() == APPLES
        &&& self.in_play()
        &&& !self.apples.contains(self.player)
    }
}

impl Board {
    /// Puts an apple at `at` unless one lies there already, and tells whether
    /// it did.
    pub fn place_apple(&mut self, at: Loc) -> (placed: bool)
        ensures
            final(self)@ == old(self)@.with_apple(at),
            placed == !old(self)@.apples.contains(at),
    {
        if self.has_apple(at) {
            false
        } else {
            self.apples_positions.push(at);
            true
        }
    }

    /// Puts the player at `at` unless an apple lies there, and tells whether
    /// it did.
    pub fn place_player(&mut self, at: Loc) -> (placed: bool)
        ensures
            final(self)@ == old(self)@.with_player(at),
            placed == !old(self)@.apples.contains(at),
    {
        if self.has_apple(at) {
            false
        } else {
            self.player_position = at;
            true
        }
    }

    /// Adds apples on cells drawn at random inside the wall until the board
    /// holds seven. A cell that already holds an apple is drawn again.
    ///
    /// A board that holds seven apples or more is left as it is. Otherwise
    /// the apples that were there stay, in their order, and the new ones
    /// follow them. The call fails, with fewer than seven apples on the
    /// board, only when `MAX_DRAWS` draws did not suffice. Player and grid
    /// are left as they are.
    pub fn generate_apples(&mut self, rng: &mut ThreadRng) -> (done: Result<(), PlacementError>)
        ensures
            final(self)@.player == old(self)@.player,
            final(self)@.field == old(self)@.field,
            apples_added(old(self)@.apples, final(self)@.apples),
            old(self)@.apples.len() >= APPLES ==> final(self)@ == old(self)@,
            old(self)@.apples.len() <= APPLES ==> final(self)@.apples.len() <= APPLES,
            done is Ok <==> final(self)@.apples.len() >= APPLES,
            old(self)@.apples_well_placed() ==> final(self)@.apples_well_placed(),
    {
        let mut draws: usize = 0;
        assert(self@.apples.subrange(0, self@.apples.len() as int) =~= self@.apples);
        while self.apples_positions.len() < APPLES && draws < MAX_DRAWS
            invariant
                draws <= MAX_DRAWS,
                self@.player == old(self)@.player,
                self@.field == old(self)@.field,
                apples_added(old(self)@.apples, self@.apples),
                old(self)@.apples.len() >= APPLES ==> self@ == old(self)@,
                old(self)@.apples.len() <= APPLES ==> self@.apples.len() <= APPLES,
                old(self)@.apples_well_placed() ==> self@.apples_well_placed(),
            decreases MAX_DRAWS - draws,
        {
            let at = draw_interior(rng);
            let ghost before = self@.apples;
            let placed = self.place_apple(at);
            proof {
                if placed {
                    assert forall|i: int|
                        old(self)@.apples.len() <= i < self@.apples.len() implies {
                        &&& (#[trigger] self@.apples[i]).in_interior()
                        &&& !self@.apples.subrange(0, i).contains(self@.apples[i])
                    } by {
                        if i < before.len() {
                            assert(self@.apples.subrange(0, i) =~= before.subrange(0, i));
                        }
                    }
                    assert(self@.apples.subrange(0, old(self)@.apples.len() as int)
                        =~= before.subrange(0, old(self)@.apples.len() as int));
                }
            }
            draws += 1;
        }
        if self.apples_positions.len() >= APPLES {
            Ok(())
        } else {
            Err(PlacementError::DrawsExhausted)
        }
    }

    /// Puts the player on a cell drawn at random inside the wall. A cell that
    /// holds an apple is drawn again.
    ///
    /// On success the player stands inside the wall on a cell without an
    /// apple. The call fails, with the player where it was, when `MAX_DRAWS`
    /// draws did not find such a cell. Where no cell inside the wall holds an
    /// apple the first draw is taken, so the call succeeds; where every cell
    /// inside the wall holds one it fails. Apples and grid are left as they
    /// are.
    pub fn generate_player(&mut self, rng: &mut ThreadRng) -> (done: Result<(), PlacementError>)
        ensures
            final(self)@.apples == old(self)@.apples,
            final(self)@.field == old(self)@.field,
            done is Ok ==> final(self)@.player.in_interior() && !final(self)@.apples.contains(
                final(self)@.player,
            ),
            done is Err ==> final(self)@ == old(self)@,
            interior_free(old(self)@.apples) ==> done is Ok,
            interior_full(old(self)@.apples) ==> done is Err,
    {
        let mut draws: usize = 0;
        while draws < MAX_DRAWS
            invariant
                draws <= MAX_DRAWS,
                self@ == old(self)@,
                interior_free(old(self)@.apples) ==> draws == 0,
            decreases MAX_DRAWS - draws,
        {
            let at = draw_interior(rng);
            if self.place_player(at) {
                return Ok(());
            }
            draws += 1;
        }
        Err(PlacementError::DrawsExhausted)
    }

    /// Lays out a board for a new game: a blank board, then the apples, then
    /// the player.
    ///
    /// On success the board holds exactly seven apples on distinct cells
    /// inside the wall, the player stands inside the wall on a cell without
    /// an apple, and the grid is still blank.
    pub fn new_game(rng: &mut ThreadRng) -> (laid_out: Result<Board, PlacementError>)
        ensures
            laid_out matches Ok(board) ==> board@.freshly_laid_out() && board@.field
                == BoardView::initial().field,
    {
        let mut board = Board::initialize_board();
        match board.generate_apples(rng) {
            Ok(()) => {},
            Err(e) => {
                return Err(e);
            },
        }
        match board.generate_player(rng) {
            Ok(()) => {},
            Err(e) => {
                return Err(e);
            },
        }
        Ok(board)
    }
}

} // verus!
