//! The game of Nim: heaps of stones, the rules of a move, the winning
//! strategy by nim-sum, and the decisions of an interactive session.

pub mod game;
pub mod geometry;
pub mod heap;
pub mod nim_sum;
pub mod system;
