//! Viewer core for equirectangular panoramas.
//!
//! The crate holds the algorithmic heart of a spherical photo viewer:
//! extraction of the GPano crop descriptor from the head of an image file,
//! the camera state with its input rules (keys, pointer drags, wheel), and
//! the mapping from view angles to cropped-texture sample positions.
//! Angles and zoom factors are fixed-point integers in millionths, so the
//! whole pipeline is exact; the surrounding application converts to the
//! machine's floating point only at the rendering boundary.

pub mod camera;
pub mod fixed;
pub mod metadata;
pub mod projection;
pub mod search;
pub mod text;
pub mod xmltree;
