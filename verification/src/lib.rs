//! Pixel-exact comparison of raster images.
//!
//! Two decoded images of identical dimensions are compared pixel by pixel;
//! the result is a diff mask that highlights the differing pixels through
//! its alpha channel, plus gate logic that decides whether a comparison
//! succeeded or which failure it ran into.

pub mod diff;
pub mod gate;
pub mod pixel;
