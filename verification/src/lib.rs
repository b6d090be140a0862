//! A character-grid two-paddle ball game: fixed-timestep simulation of ball
//! and paddle physics, collision and scoring, a reactive computer player,
//! and proportional rescaling, all over exact fixed-point integers.

pub mod config;
pub mod laws;
pub mod model;
pub mod rng;
