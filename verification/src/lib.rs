//! Keyboard-driven movement for a box in a window: which keys are held, and
//! the velocity that the held arrow keys ask for.
//!
//! Keys are identified by their SDL key codes, as piston's `Key` enum
//! numbers them. Velocities are whole pixels per frame.

pub mod components;
pub mod conrod_setup;
pub mod keys;
pub mod laws;
pub mod systems;
