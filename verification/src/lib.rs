//! A falling-block puzzle engine: the playing grid, the seven pieces and
//! their authored orientations, collision and wall-kick rules, locking and
//! row clearing, and the score, level and gravity rules of a session.
//!
//! - [`shape`]: the piece types and their 4×4 patterns.
//! - [`grid`]: the 20×10 grid and its row operations.
//! - [`piece`]: a piece on the grid, and how it moves, turns, falls and is
//!   stamped.
//! - [`piece_laws`]: what is proved of pieces beyond the contracts of
//!   their operations.
//! - [`source`]: where the next piece comes from.
//! - [`session`]: a game, driven by commands and ticks.
//!
//! The engine is deterministic but for the draw of the next piece. Each
//! operation that draws has a twin that is told what was drawn.
//!
//! Every function in this crate is verified against the contract it
//! carries. The single exception is the random draw in [`source`], whose
//! outcome nothing is claimed about.

pub mod grid;
pub mod piece;
pub mod piece_laws;
pub mod session;
pub mod shape;
pub mod source;
