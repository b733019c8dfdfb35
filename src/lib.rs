//! A step-sequencer control surface: a tempo-driven playhead over a row of
//! steps, and a tree of views that route key events into the shared model
//! and describe what to paint.

pub mod model;
pub mod view;
pub mod matrix;
pub mod volume;
pub mod root;
