//! A two-paddle ball game: the per-frame simulation (movement, collisions,
//! scoring), the frame clock, and drawing into an RGB canvas.
//!
//! Positions are integers in micropixels and velocities in pixels per second,
//! so that advancing by an elapsed time in microseconds is exact.

pub mod canvas;
pub mod collision;
pub mod components;
pub mod config;
pub mod movement;
pub mod render;
pub mod scoring;
pub mod time;
