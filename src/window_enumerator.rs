use crate::types::WindowInfo;
use vstd::prelude::*;
use windows::Win32::UI::WindowsAndMessaging::{WINDOW_STYLE, WS_VISIBLE};

verus! {

/// Whether a window style carries the visible bit.
pub open spec fn visible_style(style: u32) -> bool {
    style & 0x1000_0000u32 == 0x1000_0000u32
}

/// Relies on `WINDOW_STYLE::contains` and `WS_VISIBLE` (0x1000_0000) of the
/// `windows` crate: the style holds every bit of `WS_VISIBLE`.
#[verifier::external_body]
fn has_visible_style(style: u32) -> (r: bool)
    ensures
        r == visible_style(style),
{
    WINDOW_STYLE(style).contains(WS_VISIBLE)
}

/// The class name of the legacy desktop-shell background window.
pub open spec fn shell_background_class() -> Seq<char> {
    "Progman"@
}

/// A window is listed when it has a title, is visible and not cloaked, and is
/// not the desktop-shell background window.
pub open spec fn is_listed(
    title: Seq<char>,
    style: u32,
    is_cloaked: bool,
    class_name: Seq<char>,
) -> bool {
    &&& title.len() > 0
    &&& visible_style(style)
    &&& !is_cloaked
    &&& class_name != shell_background_class()
}

/// Adds the window to the snapshot when it is listed: it has a non-empty
/// title, its style is visible, it is not cloaked, and its class is not the
/// desktop-shell background's. Other windows are left out, so a list built
/// from empty by this function holds only titled windows.
pub fn process_window(
    windows_vector: &mut Vec<WindowInfo>,
    window: WindowInfo,
    style: u32,
    is_cloaked: bool,
    class_name: &String,
)
    ensures
        final(windows_vector)@ == if is_listed(window.title@, style, is_cloaked, class_name@) {
            old(windows_vector)@.push(window)
        } else {
            old(windows_vector)@
        },
        (forall|i: int| 0 <= i < old(windows_vector)@.len() ==> #[trigger] old(windows_vector)@[i].title@.len() > 0)
            ==> (forall|i: int| 0 <= i < final(windows_vector)@.len() ==> #[trigger] final(windows_vector)@[i].title@.len() > 0),
{
    let shell_background = "Progman".to_owned();
    let is_visible = has_visible_style(style) && !is_cloaked;
    let is_progman = *class_name == shell_background;
    if !window.title.as_str().is_empty() && is_visible && !is_progman {
        windows_vector.push(window);
    }
}

} // verus!
