//! Foreign windows where none can be reached: there is no foreground window, and
//! focusing or showing one does nothing.

use vstd::prelude::*;

use crate::geometry::Rect;

verus! {

/// Operations on windows by handle.
pub struct WindowExt;

impl WindowExt {
    /// The line that reports an error to the user.
    pub fn show_error_box(title: &str, msg: &str) -> (line: String)
        ensures
            line@ == "ERROR: "@ + title@ + ": "@ + msg@,
    {
        let mut line = "ERROR: ".to_string();
        line.append(title);
        line.append(": ");
        line.append(msg);
        line
    }

    /// Releases no key.
    pub fn release_modifier_keys() {
    }

    /// The handle of the foreground window: none.
    pub fn get_foreground_window() -> (res: isize)
        ensures
            res == 0,
    {
        0
    }

    /// The rectangle of a window: unknown.
    pub fn get_window_rect(_hwnd: isize) -> (res: Option<Rect>)
        ensures
            res is None,
    {
        None
    }

    /// Focuses nothing.
    pub fn force_focus_window(_hwnd: isize) {
    }

    /// Shows nothing.
    pub fn show_window_no_activate(_hwnd: isize) {
    }

    /// Shows nothing.
    pub fn show_window_no_activate_normal(_hwnd: isize) {
    }
}

} // verus!
