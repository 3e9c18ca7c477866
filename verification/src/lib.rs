//! Core of a generative-art animation: concentric rings of randomly colored,
//! randomly shaped outlines expand outward from the center of a canvas.
//!
//! The crate holds the sketch's logic: an integer color model with a
//! "jittered average" mixing scheme, the frame-by-frame animation state
//! machine, and the mapping from a state to the drawing command for that
//! frame. A host loop owns the window and the clock; each frame it feeds the
//! current key state to [`model::update`] and hands the command returned by
//! [`render::view`] to its drawing backend.

pub mod color;
pub mod model;
pub mod render;
mod rng;
