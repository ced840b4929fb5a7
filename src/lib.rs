//! Generator of "only move" chess endgame puzzles: random positions with a
//! bounded number of pieces, filtered by endgame-tablebase metrics down to
//! those where exactly one reply keeps the optimal outcome with a clear margin.
pub mod cli;
pub mod engine;
pub mod placement;
pub mod puzzle;
pub mod sampler;
pub mod selector;
