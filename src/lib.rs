//! A verified interaction controller for a chess board played by a human
//! against an opponent that replies with a uniformly random legal move.

pub mod types;
pub mod mapper;
pub mod engine;
pub mod opponent;
pub mod render;
pub mod board_view;
pub mod laws;
