//! A small grid game, verified with Verus.
//!
//! A player walks over an 8×8 board whose outer ring is wall, and eats the
//! apples that lie on its inner 6×6 cells. When the last apple is eaten the
//! game is won and a fresh board is laid out.
//!
//! The crate holds the rules only: the board and the grid derived from it,
//! the random placement of apples and player, and the handling of one turn.
//! Reading the keyboard and writing to the terminal are left to the caller,
//! who hands in each line of input and prints the rows that [`board::Board::render_rows`]
//! returns.

pub mod board;
pub mod field;
pub mod laws;
pub mod loc;
pub mod moves;
pub mod placement;
pub mod turn;
