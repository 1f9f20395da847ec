use crate::types::{Placement, Point, Rect, ScreenInfo, WindowInfo};
use vstd::math::{max, min};
use vstd::prelude::*;
use windows::Win32::Foundation::HWND;
use windows::Win32::UI::WindowsAndMessaging::SW_SHOWMAXIMIZED;

verus! {

/// Length of the part of the horizontal span `[left, right)` that lies within
/// the screen; zero or negative when the two are disjoint.
pub open spec fn overlap(left: int, right: int, screen: ScreenInfo) -> int {
    min(right, screen.right as int) - max(left, screen.left as int)
}

/// Width of the window's bounding rectangle.
pub open spec fn width(window: WindowInfo) -> int {
    window.right - window.left
}

/// A window lies mainly on a screen when strictly more than half of its width
/// is within the screen's horizontal span. Vertical position plays no part.
pub open spec fn mainly_on(window: WindowInfo, screen: ScreenInfo) -> bool {
    2 * overlap(window.left as int, window.right as int, screen) > width(window)
}

/// Tells whether the window lies mainly (more than 50%) on the screen.
pub fn is_on_screen(window: &WindowInfo, screen: &ScreenInfo) -> (r: bool)
    ensures
        r == mainly_on(*window, *screen),
{
    let window_width: i64 = window.right as i64 - window.left as i64;
    let right: i64 = if window.right <= screen.right {
        window.right as i64
    } else {
        screen.right as i64
    };
    let left: i64 = if window.left >= screen.left {
        window.left as i64
    } else {
        screen.left as i64
    };
    let on_screen_width: i64 = right - left;
    on_screen_width * 2 > window_width
}

/// The show state of a maximized window.
pub open spec fn is_maximized(placement: Placement) -> bool {
    placement.show_cmd == 3
}

/// Relies on `SW_SHOWMAXIMIZED` of the `windows` crate: the show state that
/// marks a maximized window, whose value is 3.
#[verifier::external_body]
fn maximized_show_cmd() -> (r: u32)
    ensures
        r == 3,
{
    SW_SHOWMAXIMIZED.0 as u32
}

/// The amount subtracted from a horizontal coordinate to carry it from one
/// screen to the other.
pub open spec fn offset(from: ScreenInfo, to: ScreenInfo) -> int {
    from.left - to.left
}

/// Whether a value is representable as an `i32` coordinate.
pub open spec fn fits_i32(x: int) -> bool {
    i32::MIN <= x <= i32::MAX
}

/// The placement with its restored rectangle shifted left by `offset`;
/// everything else is kept.
pub open spec fn shift_placement(placement: Placement, offset: int) -> Placement {
    Placement {
        normal_position: Rect {
            left: (placement.normal_position.left - offset) as i32,
            right: (placement.normal_position.right - offset) as i32,
            ..placement.normal_position
        },
        ..placement
    }
}

/// Whether every horizontal coordinate that a move from `from` to `to`
/// rewrites stays representable: the restored rectangle's left and right
/// edges, and for a maximized window also its live left edge.
pub open spec fn move_fits(window: WindowInfo, from: ScreenInfo, to: ScreenInfo) -> bool {
    let d = offset(from, to);
    &&& is_maximized(window.window_placement) ==> fits_i32(window.left - d)
    &&& fits_i32(window.window_placement.normal_position.left - d)
    &&& fits_i32(window.window_placement.normal_position.right - d)
}

/// The platform updates that move one window to another screen.
#[derive(Clone, Copy, Debug)]
pub struct WindowMove {
    pub handle: HWND,
    /// For a maximized window, which a new placement alone does not move: the
    /// top-left corner that its live position is set to before the placement
    /// is committed, keeping size, Z-order and activation. `None` for every
    /// other window.
    pub position: Option<Point>,
    /// The placement to commit to the window.
    pub placement: Placement,
}

/// The move of `window` from screen `from` to screen `to`: a pure horizontal
/// translation by `offset(from, to)`. There is none when a translated
/// coordinate would leave the `i32` range.
pub open spec fn planned_move(window: WindowInfo, from: ScreenInfo, to: ScreenInfo) -> Option<
    WindowMove,
> {
    if move_fits(window, from, to) {
        Some(
            WindowMove {
                handle: window.handle,
                position: if is_maximized(window.window_placement) {
                    Some(Point { x: (window.left - offset(from, to)) as i32, y: window.top })
                } else {
                    None
                },
                placement: shift_placement(window.window_placement, offset(from, to)),
            },
        )
    } else {
        None
    }
}

/// Computes the updates that carry a window from screen `from` to screen
/// `to`, or `None` when a translated coordinate would not fit in an `i32`.
pub fn switch_window(window: &WindowInfo, from: &ScreenInfo, to: &ScreenInfo) -> (r: Option<
    WindowMove,
>)
    ensures
        r == planned_move(*window, *from, *to),
{
    let offset: i64 = from.left as i64 - to.left as i64;
    let normal = window.window_placement.normal_position;
    let normal_left: i64 = normal.left as i64 - offset;
    let normal_right: i64 = normal.right as i64 - offset;
    if normal_left < i32::MIN as i64 || normal_left > i32::MAX as i64 || normal_right
        < i32::MIN as i64 || normal_right > i32::MAX as i64 {
        return None;
    }
    let is_maximized = window.window_placement.show_cmd == maximized_show_cmd();
    let position = if is_maximized {
        let new_left: i64 = window.left as i64 - offset;
        if new_left < i32::MIN as i64 || new_left > i32::MAX as i64 {
            return None;
        }
        Some(Point { x: new_left as i32, y: window.top })
    } else {
        None
    };
    let mut placement = window.window_placement;
    placement.normal_position.left = normal_left as i32;
    placement.normal_position.right = normal_right as i32;
    Some(
        WindowMove {
            handle: window.handle,
            position,
            placement,
        },
    )
}

/// What happens to a window when the two screens are swapped: a window mainly
/// on `screen1` moves to `screen2`, else one mainly on `screen2` moves to
/// `screen1`, else it stays.
pub open spec fn planned_switch(window: WindowInfo, screen1: ScreenInfo, screen2: ScreenInfo) -> Option<
    WindowMove,
> {
    if mainly_on(window, screen1) {
        planned_move(window, screen1, screen2)
    } else if mainly_on(window, screen2) {
        planned_move(window, screen2, screen1)
    } else {
        None
    }
}

/// Switches windows between screen 1 and 2: returns, for each window in
/// order, the move that takes it to the other screen if it lies mainly (more
/// than 50%) on one of them, and `None` otherwise.
pub fn switch_windows(windows: &Vec<WindowInfo>, screen1: ScreenInfo, screen2: ScreenInfo) -> (r:
    Vec<Option<WindowMove>>)
    ensures
        r@.len() == windows@.len(),
        forall|i: int|
            0 <= i < windows@.len() ==> #[trigger] r@[i] == planned_switch(
                windows@[i],
                screen1,
                screen2,
            ),
{
    let mut moves: Vec<Option<WindowMove>> = Vec::new();
    let mut i: usize = 0;
    while i < windows.len()
        invariant
            i <= windows@.len(),
            moves@.len() == i,
            forall|j: int|
                0 <= j < i ==> #[trigger] moves@[j] == planned_switch(windows@[j], screen1, screen2),
        decreases windows@.len() - i,
    {
        let window = &windows[i];
        let planned = if is_on_screen(window, &screen1) {
            switch_window(window, &screen1, &screen2)
        } else if is_on_screen(window, &screen2) {
            switch_window(window, &screen2, &screen1)
        } else {
            None
        };
        moves.push(planned);
        i = i + 1;
    }
    moves
}

/// Two screens whose horizontal spans do not overlap.
pub open spec fn disjoint(screen1: ScreenInfo, screen2: ScreenInfo) -> bool {
    screen1.right <= screen2.left || screen2.right <= screen1.left
}

/// A window lies mainly on at most one of two non-overlapping screens, so the
/// swap never has to choose between two moves: a window mainly on the second
/// screen is always moved from the second screen to the first.
pub proof fn lemma_mainly_on_at_most_one(window: WindowInfo, screen1: ScreenInfo, screen2: ScreenInfo)
    requires
        disjoint(screen1, screen2),
    ensures
        !(mainly_on(window, screen1) && mainly_on(window, screen2)),
        mainly_on(window, screen2) ==> planned_switch(window, screen1, screen2) == planned_move(
            window,
            screen2,
            screen1,
        ),
{
}

/// Moving a window from one screen to another and then back restores its
/// horizontal position exactly: the second move brings the restored rectangle
/// back to where it was and, for a maximized window, sets the live position
/// back to the original top-left corner.
pub proof fn lemma_move_back_restores(
    window: WindowInfo,
    moved: WindowInfo,
    from: ScreenInfo,
    to: ScreenInfo,
)
    requires
        planned_move(window, from, to) is Some,
        moved.window_placement == planned_move(window, from, to)->Some_0.placement,
        planned_move(window, from, to)->Some_0.position matches Some(p) ==> moved.left == p.x
            && moved.top == p.y,
    ensures
        planned_move(moved, to, from) is Some,
        planned_move(moved, to, from)->Some_0.placement == window.window_placement,
        planned_move(moved, to, from)->Some_0.position matches Some(p) ==> p.x == window.left
            && p.y == window.top,
{
}

/// A window centred on the boundary that two adjacent screens share, half of
/// it on each side, is mainly on neither screen and is not moved.
pub proof fn lemma_centred_on_boundary_stays(
    window: WindowInfo,
    screen1: ScreenInfo,
    screen2: ScreenInfo,
)
    requires
        screen1.right == screen2.left,
        window.left + window.right == 2 * screen1.right,
    ensures
        !mainly_on(window, screen1),
        !mainly_on(window, screen2),
        planned_switch(window, screen1, screen2) is None,
{
}

} // verus!
