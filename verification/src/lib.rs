//! A minimal real-time animation core: a colored, rotating text label
//! bounces inside a bordered viewport.
//!
//! The crate holds the per-frame state machine: position integration with
//! boundary reflection, wrapping rotation accumulation, a cyclic mapping
//! from the frame counter to an RGB color, and the loop-level decisions
//! (when to quit, what one frame draws). Window creation, event polling,
//! font rasterization and presentation are platform plumbing that lives
//! outside this library.

pub mod color;
pub mod engine;
pub mod motion;
