//! Scene sequencing and particle animation on whole-number coordinates.
//!
//! Lengths and positions are counted in tenths of a pixel, angles in
//! thousandths of a radian and colour channels in thousandths of full
//! intensity, so that every rule of the animation is exact integer arithmetic.

pub mod color;
pub mod controller;
pub mod geometry;
pub mod layout;
pub mod particle;
pub mod random;
pub mod scene;
pub mod script;
