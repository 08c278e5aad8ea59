//! Rules engine for a probabilistic five-in-a-row: stones carry a hidden side
//! that is only fixed, cell by cell and at random, when the board is observed.

pub mod player;
pub mod game;
pub mod lemmas;
