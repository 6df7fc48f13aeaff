//! Field-morphing engine in the style of Beier and Neely: given two raster
//! images and two parallel lists of directed feature lines, it computes an
//! in-between image at a parameter `t` by interpolating the line sets,
//! inversely warping every output pixel through a weighted multi-line field,
//! resampling both images bilinearly, and cross-dissolving the colors.
//!
//! All coordinates and weights are fixed-point numbers with six decimal
//! places ([`fixed::Fx`]); every arithmetic step is specified exactly, so the
//! contracts pin down each output pixel bit for bit.

pub mod driver;
pub mod fixed;
pub mod geom;
pub mod interp;
pub mod laws;
pub mod model;
pub mod raster;
pub mod sample;
pub mod warp;
