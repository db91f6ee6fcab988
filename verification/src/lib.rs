//! A grid-based snake game driven by small arithmetic expression trees.
//!
//! The game engine (board, snake, apple, tick transitions and speculative
//! branch exploration) and the construction of the expression trees are
//! verified here; random draws come from the `rand` crate behind narrow
//! trusted wrappers.

pub mod game;
pub mod genetic_ai;
pub mod linked_list;
pub mod population;
pub mod rng;
pub mod snake;
