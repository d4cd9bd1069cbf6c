//! A small forest-weather simulation: a day clock, weather that drifts minute by
//! minute under a seeded random stream, and narration of what the player sees.

pub mod clock;
pub mod weather;
pub mod action;
pub mod location;
pub mod narrator;
pub mod rng;
pub mod session;
pub mod input;
