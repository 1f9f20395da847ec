//! Moves desktop windows between two side-by-side screens.
//!
//! The library decides which windows lie mainly on one of two screens and
//! computes where each of them goes on the other screen. Reading the window
//! list from the platform and applying the moves is left to the caller.

pub mod types;

pub use types::{Placement, Point, Rect, ScreenInfo, WindowInfo};
pub mod switch_windows;
pub mod window_enumerator;
