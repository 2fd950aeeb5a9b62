//! A single-player falling-block puzzle engine.
//!
//! The crate holds the rules of the game (the piece catalog, the seven-piece
//! bag, the board, and the engine that moves, rotates, holds and locks
//! pieces) together with the timing controller that turns key edges and
//! ticks into engine calls. Every executable function carries a contract
//! stated over a mathematical model of the game.

pub mod bag;
pub mod board;
pub mod laws;
pub mod pieces;
pub mod rules;
pub mod tetris_engine;
pub mod user_controls;
