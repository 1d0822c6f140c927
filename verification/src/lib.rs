//! Conway's Game of Life: a fixed-size grid of boolean cells, the
//! generation-step algorithm, and the text parser that builds an initial
//! grid. Every function is verified against the rule specification in
//! `life`.

pub mod cell;
pub mod grid_row;
pub mod life;
pub mod grid;
pub mod parse;
pub mod display;
