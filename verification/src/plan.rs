//! What the shell does to its window, step by step.

use vstd::prelude::*;

verus! {

/// One step. A plan is carried out in order, and a step that fails does not stop
/// the ones after it.
#[derive(Clone, Copy, Debug, PartialEq, Eq, Structural)]
pub enum WindowAction {
    /// Moves the top left corner.
    MoveTo { x: i32, y: i32 },
    /// Sets the size in physical pixels.
    Resize { width: u32, height: u32 },
    Show,
    Hide,
    /// Hides the panel, or the window itself where that fails.
    HidePanel,
    /// Gives the window the keyboard focus.
    Focus,
    AlwaysOnTop(bool),
    Focusable(bool),
    /// Sets or clears the window style that keeps a click from activating it.
    NoActivate(bool),
    /// Lets the window appear on every desktop space.
    JoinAllSpaces,
    /// Turns the window into a panel that floats over other applications.
    MakePanel,
    /// Lets the window join all spaces again a few times while it settles.
    RepeatJoinAllSpaces,
    /// Moves the window to its position at an edge.
    DockPosition(i32),
    /// Moves the window to its dock position again a few times while it settles.
    RepeatDockPosition(i32),
    /// Opens the developer tools where they are wanted.
    OpenDevtools,
    /// Remembers whether the window is tucked away at an edge.
    SetHidden(bool),
    /// Remembers the edge that the window is docked to.
    SetDock(i32),
    /// Remembers whether the user pinned the window.
    SetPinned(bool),
    /// Remembers whether keyboard navigation is on.
    SetNavigation(bool),
    /// Remembers whether the navigation mode is active.
    SetNavigationMode(bool),
    /// Remembers whether the window has the focus.
    SetFocused(bool),
    /// Remembers the present time as the one when the window was last shown.
    MarkShown,
    /// Stores the edge for the next start.
    PersistDock(i32),
    /// Tells the interface whether the window is pinned.
    AnnouncePinned(bool),
    /// Tells the interface to hide the compact preview.
    HidePreview,
    ClearVibrancy,
    /// Keeps the window from being closed.
    PreventClose,
    /// Pulls the window back on screen.
    ExpandFromEdge,
    /// Restores the pin state once the window is back on screen.
    RestorePin,
    /// Restores the pin state once the window has left an edge by itself.
    RestorePinUndocked,
    /// Notes a new window size to be stored.
    PersistSize { width: u32, height: u32 },
    /// Decides what losing the focus means.
    CheckBlur,
    /// Releases modifier keys that may be held down.
    ReleaseModifiers,
    /// Gives the focus back to the application that had it before.
    RestorePreviousFocus,
}

/// Whether the window is tucked away, and the edge that it is docked to.
#[derive(Clone, Copy, Debug, PartialEq, Eq, Structural)]
pub struct EdgeFlags {
    pub hidden: bool,
    pub dock: i32,
}

impl EdgeFlags {
    /// A window is tucked away exactly while it is docked to one of three edges.
    pub open spec fn consistent(self) -> bool {
        &&& 0 <= self.dock <= 3
        &&& self.hidden == (self.dock != 0)
    }
}

/// The flags once `action` is carried out.
pub open spec fn flags_after(flags: EdgeFlags, action: WindowAction) -> EdgeFlags {
    match action {
        WindowAction::SetHidden(hidden) => EdgeFlags { hidden, ..flags },
        WindowAction::SetDock(dock) => EdgeFlags { dock, ..flags },
        _ => flags,
    }
}

/// The flags once `plan` is carried out.
pub open spec fn flags_after_all(flags: EdgeFlags, plan: Seq<WindowAction>) -> EdgeFlags
    decreases plan.len(),
{
    if plan.len() == 0 {
        flags
    } else {
        flags_after(flags_after_all(flags, plan.drop_last()), plan.last())
    }
}

/// Carrying out two plans, one after the other.
pub proof fn lemma_flags_after_concat(
    flags: EdgeFlags,
    first: Seq<WindowAction>,
    second: Seq<WindowAction>,
)
    ensures
        flags_after_all(flags, first + second) == flags_after_all(
            flags_after_all(flags, first),
            second,
        ),
    decreases second.len(),
{
    if second.len() == 0 {
        assert(first + second == first);
    } else {
        assert((first + second).drop_last() == first + second.drop_last());
        lemma_flags_after_concat(flags, first, second.drop_last());
    }
}

} // verus!
