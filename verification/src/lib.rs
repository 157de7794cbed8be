//! Verified cores of three small programs: a console canvas driven by a
//! fixed-tick engine, a number-guessing game, and the bookkeeping of a
//! single-pipeline frame renderer.

pub mod buffer;
pub mod canvas;
pub mod engine;
pub mod geometry;
pub mod guess_game;
pub mod input;
pub mod renderer;
pub mod text;
pub mod texture;
