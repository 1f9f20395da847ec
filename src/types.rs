use vstd::prelude::*;
use windows::Win32::Foundation::HWND;

verus! {

/// The platform's window handle: an identity key that the library carries
/// through untouched.
#[verifier::external_type_specification]
#[verifier::external_body]
pub struct ExHwnd(HWND);

/// A point in virtual-desktop pixel coordinates.
#[derive(Clone, Copy, Debug, PartialEq, Eq, Structural)]
pub struct Point {
    pub x: i32,
    pub y: i32,
}

/// A rectangle in virtual-desktop pixel coordinates.
#[derive(Clone, Copy, Debug, PartialEq, Eq, Structural)]
pub struct Rect {
    pub left: i32,
    pub top: i32,
    pub right: i32,
    pub bottom: i32,
}

/// The stored placement of a window: its show state and the rectangle it
/// occupies when restored from a maximized or minimized state.
#[derive(Clone, Copy, Debug, PartialEq, Eq, Structural)]
pub struct Placement {
    pub flags: u32,
    pub show_cmd: u32,
    pub min_position: Point,
    pub max_position: Point,
    pub normal_position: Rect,
}

/// A snapshot of one top-level window.
pub struct WindowInfo {
    pub handle: HWND,
    pub title: String,
    pub left: i32,
    pub top: i32,
    pub right: i32,
    pub bottom: i32,
    pub window_placement: Placement,
}

/// The horizontal span of a screen in virtual-desktop coordinates.
#[derive(Clone, Copy, Debug, PartialEq, Eq, Structural)]
pub struct ScreenInfo {
    /// Left bound (inclusive).
    pub left: i32,
    /// Right bound (exclusive).
    pub right: i32,
}

} // verus!
