//! Core of a borderless desktop loading overlay: a cyclic three-state screen
//! machine, the panel shown for each state, a fixed-point progress-bar
//! geometry, and the window-chrome signal accounting. Rendering itself is left
//! to the hosting immediate-mode toolkit; this crate computes what to draw and
//! how state and window signals respond to clicks.

pub mod progress;
pub mod screen;
pub mod status;
pub mod theme;
