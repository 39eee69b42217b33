//! A small platformer core in fixed-point integers: an actor under gravity
//! landing on solid rectangles, and a camera framed by one of five strategies.
//!
//! Units: a length is counted in millionths of a pixel, a speed in
//! thousandths of a pixel per second, and a time in milliseconds, so that a
//! speed times a time is exactly a length.

pub mod geometry;
pub mod physics;
pub mod camera;
pub mod game;
