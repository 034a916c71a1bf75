//! Docking of the window to a screen edge: it is tucked away but for a thin
//! strip while the pointer is elsewhere, and pulled back when it returns.

use vstd::prelude::*;

use crate::clock::{elapsed, elapsed_ms};
use crate::geometry::{
    barely_visible, clearly_visible, extent, is_barely_visible, is_clearly_visible, is_coordinate,
    larger, lemma_strip_is_not_above, signed_extent, smaller, span, Placement, Rect, WindowGeometry,
};
use crate::plan::{flags_after_all, EdgeFlags, WindowAction};
use crate::platform::Platform;
use crate::settings_store::{write_of, SettingWrite, Stored, StoredView, WriteView};
use crate::text::{lowered, same_text, to_ascii_lowercase, trim, trimmed};

verus! {

/// How close to an edge counts as being at it, in pixels.
pub const EDGE_THRESHOLD: i32 = 5;

/// How much of a tucked window stays on screen, in pixels.
pub const HIDE_SIZE: i32 = 3;

/// How often the docking monitor looks at the window, in milliseconds.
pub const LOOK_EVERY_MS: u64 = 150;

/// The dock position that a stored token names: 1 for the top edge, 2 for the
/// left, 3 for the right, 0 for none.
pub open spec fn dock_named(token: Seq<char>) -> i32 {
    let name = lowered(trimmed(token));
    if name == "top"@ {
        1
    } else if name == "left"@ {
        2
    } else if name == "right"@ {
        3
    } else {
        0
    }
}

/// The token that names a dock position.
pub open spec fn dock_name(dock: i32) -> Seq<char> {
    if dock == 1 {
        "top"@
    } else if dock == 2 {
        "left"@
    } else if dock == 3 {
        "right"@
    } else {
        "none"@
    }
}

/// Reads a dock token, in any case and with white space around it.
pub fn parse_dock_token(token: &str) -> (res: i32)
    ensures
        res == dock_named(token@),
{
    let name = to_ascii_lowercase(trim(token).as_str());
    if same_text(name.as_str(), "top") {
        1
    } else if same_text(name.as_str(), "left") {
        2
    } else if same_text(name.as_str(), "right") {
        3
    } else {
        0
    }
}

/// The token of a dock position.
pub fn dock_token_for(dock: i32) -> (res: &'static str)
    ensures
        res@ == dock_name(dock),
{
    match dock {
        1 => "top",
        2 => "left",
        3 => "right",
        _ => "none",
    }
}

/// A dock position that is stored by its token reads back as itself.
pub proof fn lemma_dock_token_reads_back(dock: i32)
    requires
        0 <= dock <= 3,
    ensures
        dock_named(dock_name(dock)) == dock,
{
    reveal_strlit("top");
    reveal_strlit("left");
    reveal_strlit("right");
    reveal_strlit("none");
    let name = dock_name(dock);
    assert(trimmed(name) == name) by {
        reveal_with_fuel(crate::text::trimmed_start, 2);
        reveal_with_fuel(crate::text::trimmed_end, 2);
    }
    assert(lowered(name) == name);
    assert("top"@.len() == 3 && "left"@.len() == 4 && "right"@.len() == 5 && "none"@.len() == 4);
    assert("left"@[0] != "none"@[0]);
}

/// The value to store so that the next start finds the dock position; only macOS
/// keeps it.
pub fn persist_edge_dock(platform: Platform, dock: i32) -> (res: Option<SettingWrite>)
    ensures
        platform == Platform::MacOs ==> (res matches Some(w) && w@ == (WriteView {
            key: "app.last_edge_dock"@,
            value: dock_name(dock),
        })),
        platform != Platform::MacOs ==> res is None,
{
    if platform == Platform::MacOs {
        Some(write_of("app.last_edge_dock", dock_token_for(dock)))
    } else {
        None
    }
}

/// The edge that a window is at: the top one first, else the left, else the right.
pub open spec fn edge_at(
    left: int,
    top: int,
    right: int,
    screen_left: int,
    screen_top: int,
    screen_right: int,
) -> i32 {
    if top <= screen_top + EDGE_THRESHOLD {
        1
    } else if left <= screen_left + EDGE_THRESHOLD {
        2
    } else if right >= screen_right - EDGE_THRESHOLD {
        3
    } else {
        0
    }
}

/// The edge that a window is at, from where it lies on its screen.
pub fn infer_edge_dock_from_geometry(
    rect_left: i32,
    rect_top: i32,
    rect_right: i32,
    screen_left: i32,
    screen_top: i32,
    screen_right: i32,
) -> (res: i32)
    ensures
        res == edge_at(
            rect_left as int,
            rect_top as int,
            rect_right as int,
            screen_left as int,
            screen_top as int,
            screen_right as int,
        ),
{
    if rect_top as i64 <= screen_top as i64 + EDGE_THRESHOLD as i64 {
        1
    } else if rect_left as i64 <= screen_left as i64 + EDGE_THRESHOLD as i64 {
        2
    } else if rect_right as i64 >= screen_right as i64 - EDGE_THRESHOLD as i64 {
        3
    } else {
        0
    }
}

/// Where the top left corner goes when a window of the given corner and size is
/// tucked away at an edge.
pub open spec fn tuck_target(
    dock: i32,
    left: int,
    top: int,
    width: int,
    height: int,
    screen_left: int,
    screen_top: int,
    screen_right: int,
) -> Option<(int, int)> {
    if dock == 1 {
        Some((left, screen_top - height + HIDE_SIZE))
    } else if dock == 2 {
        Some((screen_left - width + HIDE_SIZE, top))
    } else if dock == 3 {
        Some((screen_right - HIDE_SIZE, top))
    } else {
        None
    }
}

/// Where the top left corner goes when a window that is tucked away at an edge is
/// pulled back.
pub open spec fn expand_target(
    dock: i32,
    left: int,
    top: int,
    width: int,
    screen_left: int,
    screen_top: int,
    screen_right: int,
) -> Option<(int, int)> {
    if dock == 1 {
        Some((left, screen_top))
    } else if dock == 2 {
        Some((screen_left, top))
    } else if dock == 3 {
        Some((screen_right - width, top))
    } else {
        None
    }
}

/// Whether both parts of a target are coordinates.
pub open spec fn reachable(target: Option<(int, int)>) -> bool {
    target matches Some(p) ==> is_coordinate(p.0) && is_coordinate(p.1)
}

/// The step that moves the window to `target`.
pub open spec fn move_to(target: (int, int)) -> WindowAction {
    WindowAction::MoveTo { x: target.0 as i32, y: target.1 as i32 }
}

fn move_step(x: i64, y: i64) -> (res: WindowAction)
    requires
        is_coordinate(x as int),
        is_coordinate(y as int),
    ensures
        res == move_to((x as int, y as int)),
{
    WindowAction::MoveTo { x: x as i32, y: y as i32 }
}

/// Where `dock` tucks the window of `geometry`.
pub open spec fn geometry_tuck_target(geometry: WindowGeometry, dock: i32) -> Option<(int, int)> {
    tuck_target(
        dock,
        geometry.window.x as int,
        geometry.window.y as int,
        extent(geometry.window.width),
        extent(geometry.window.height),
        geometry.monitor.x as int,
        geometry.monitor.y as int,
        geometry.monitor.right_edge(),
    )
}

/// The move that puts the window at its docked position; none where the geometry
/// is not known or `dock` is no edge.
pub fn apply_dock_position_on_main(geometry: Option<WindowGeometry>, dock: i32) -> (res: Option<
    WindowAction,
>)
    requires
        geometry matches Some(g) ==> reachable(geometry_tuck_target(g, dock)),
    ensures
        res == (match geometry {
            Some(g) => match geometry_tuck_target(g, dock) {
                Some(p) => Some(move_to(p)),
                None => None,
            },
            None => None,
        }),
{
    match geometry {
        None => None,
        Some(g) => {
            let width: i64 = signed_extent(g.window.width) as i64;
            let height: i64 = signed_extent(g.window.height) as i64;
            match dock {
                1 => Some(
                    move_step(
                        g.window.x as i64,
                        g.monitor.y as i64 - height + HIDE_SIZE as i64,
                    ),
                ),
                2 => Some(
                    move_step(
                        g.monitor.x as i64 - width + HIDE_SIZE as i64,
                        g.window.y as i64,
                    ),
                ),
                3 => Some(
                    move_step(
                        g.monitor.x as i64 + signed_extent(g.monitor.width) as i64
                            - HIDE_SIZE as i64,
                        g.window.y as i64,
                    ),
                ),
                _ => None,
            }
        },
    }
}

fn is_i32(n: i64) -> (res: bool)
    ensures
        res == is_coordinate(n as int),
{
    n >= -0x8000_0000i64 && n <= 0x7fff_ffffi64
}

/// Whether the docked position is in the range of coordinates, if there is one.
pub fn has_dock_position(geometry: Option<WindowGeometry>, dock: i32) -> (res: bool)
    ensures
        res == (geometry matches Some(g) ==> reachable(geometry_tuck_target(g, dock))),
{
    match geometry {
        None => true,
        Some(g) => match dock {
            1 => is_i32(
                g.monitor.y as i64 - signed_extent(g.window.height) as i64 + HIDE_SIZE as i64,
            ),
            2 => is_i32(
                g.monitor.x as i64 - signed_extent(g.window.width) as i64 + HIDE_SIZE as i64,
            ),
            3 => is_i32(
                g.monitor.x as i64 + signed_extent(g.monitor.width) as i64 - HIDE_SIZE as i64,
            ),
            _ => true,
        },
    }
}

/// The edge that the window of `geometry` is at.
pub open spec fn geometry_edge(geometry: WindowGeometry) -> i32 {
    edge_at(
        geometry.window.x as int,
        geometry.window.y as int,
        geometry.window.right_edge(),
        geometry.monitor.x as int,
        geometry.monitor.y as int,
        geometry.monitor.right_edge(),
    )
}

/// Whether the window counts as tucked away: by its flags, else by how little of
/// it is on its monitor (macOS) or by being at an edge (elsewhere).
pub open spec fn edge_tucked(
    platform: Platform,
    flags: EdgeFlags,
    geometry: Option<WindowGeometry>,
) -> bool {
    ||| flags.hidden
    ||| flags.dock != 0
    ||| geometry matches Some(g) && if platform == Platform::MacOs {
        barely_visible(rect_of(g.window), rect_of(g.monitor))
    } else {
        geometry_edge(g) != 0
    }
}

/// The rectangle of a placement by its edges.
pub open spec fn rect_of(p: Placement) -> Rect {
    Rect { left: p.x, top: p.y, right: p.right_edge() as i32, bottom: p.bottom_edge() as i32 }
}

/// Whether both rectangles of a known geometry have their edges in range.
pub open spec fn has_edges(geometry: Option<WindowGeometry>) -> bool {
    geometry matches Some(g) ==> g.window.has_edges_spec() && g.monitor.has_edges_spec()
}

/// Whether the window is tucked to a screen edge, by flags or geometry.
pub fn is_window_edge_tucked(
    platform: Platform,
    flags: EdgeFlags,
    geometry: Option<WindowGeometry>,
) -> (res: bool)
    requires
        flags.hidden || flags.dock != 0 || has_edges(geometry),
    ensures
        res == edge_tucked(platform, flags, geometry),
{
    if flags.hidden || flags.dock != 0 {
        return true;
    }
    match geometry {
        None => false,
        Some(g) => {
            let window = g.window.rect();
            let screen = g.monitor.rect();
            if platform == Platform::MacOs {
                is_barely_visible(&window, &screen)
            } else {
                infer_edge_dock_from_geometry(
                    window.left,
                    window.top,
                    window.right,
                    screen.left,
                    screen.top,
                    screen.right,
                ) != 0
            }
        },
    }
}

/// The edge that the window is pulled back from: the remembered one, or the one
/// that it is at.
pub open spec fn expand_edge(dock: i32, geometry: WindowGeometry) -> i32 {
    if dock == 0 {
        geometry_edge(geometry)
    } else {
        dock
    }
}

/// Where the window of `geometry` goes when it is pulled back.
pub open spec fn geometry_expand_target(geometry: WindowGeometry, dock: i32) -> Option<(int, int)> {
    expand_target(
        expand_edge(dock, geometry),
        geometry.window.x as int,
        geometry.window.y as int,
        extent(geometry.window.width),
        geometry.monitor.x as int,
        geometry.monitor.y as int,
        geometry.monitor.right_edge(),
    )
}

/// Whether pulling the window of `geometry` back stays in the range of coordinates.
pub open spec fn expands_in_range(dock: i32, geometry: WindowGeometry) -> bool {
    &&& is_coordinate(geometry.window.right_edge())
    &&& is_coordinate(geometry.monitor.right_edge())
    &&& reachable(geometry_expand_target(geometry, dock))
}

/// Whether pulling the window back stays in the range of coordinates.
pub fn has_expanded_position(dock: i32, geometry: Option<WindowGeometry>) -> (res: bool)
    ensures
        res == (geometry matches Some(g) ==> expands_in_range(dock, g)),
{
    match geometry {
        None => true,
        Some(g) => {
            let window_right: i64 = g.window.x as i64 + signed_extent(g.window.width) as i64;
            let screen_right: i64 = g.monitor.x as i64 + signed_extent(g.monitor.width) as i64;
            if !is_i32(window_right) || !is_i32(screen_right) {
                return false;
            }
            let edge: i32 = if dock == 0 {
                infer_edge_dock_from_geometry(
                    g.window.x,
                    g.window.y,
                    window_right as i32,
                    g.monitor.x,
                    g.monitor.y,
                    screen_right as i32,
                )
            } else {
                dock
            };
            edge != 3 || is_i32(screen_right - signed_extent(g.window.width) as i64)
        },
    }
}

/// The steps that pull the window back to `target`.
pub open spec fn expand_plan(target: (int, int)) -> Seq<WindowAction> {
    seq![
        move_to(target),
        WindowAction::Show,
        WindowAction::SetHidden(false),
        WindowAction::SetDock(0),
        WindowAction::PersistDock(0),
        WindowAction::RestorePin,
        WindowAction::MarkShown,
        WindowAction::SetNavigation(true),
    ]
}

/// Pulls the window fully on screen after an edge tuck. There is no plan where the
/// geometry is not known or the window is at no edge.
pub fn expand_from_edge_dock(dock: i32, geometry: Option<WindowGeometry>) -> (res: Option<
    Vec<WindowAction>,
>)
    requires
        geometry matches Some(g) ==> expands_in_range(dock, g),
    ensures
        match (geometry, res) {
            (Some(g), Some(plan)) => geometry_expand_target(g, dock) matches Some(p) && plan@
                == expand_plan(p),
            (Some(g), None) => geometry_expand_target(g, dock) is None,
            (None, Some(_)) => false,
            (None, None) => true,
        },
{
    let g = match geometry {
        None => {
            return None;
        },
        Some(g) => g,
    };
    let screen_right: i32 = g.monitor.right();
    let edge: i32 = if dock == 0 {
        infer_edge_dock_from_geometry(
            g.window.x,
            g.window.y,
            g.window.right(),
            g.monitor.x,
            g.monitor.y,
            screen_right,
        )
    } else {
        dock
    };
    let first = match edge {
        1 => move_step(g.window.x as i64, g.monitor.y as i64),
        2 => move_step(g.monitor.x as i64, g.window.y as i64),
        3 => move_step(
            screen_right as i64 - signed_extent(g.window.width) as i64,
            g.window.y as i64,
        ),
        _ => {
            return None;
        },
    };
    let mut plan: Vec<WindowAction> = Vec::new();
    plan.push(first);
    plan.push(WindowAction::Show);
    plan.push(WindowAction::SetHidden(false));
    plan.push(WindowAction::SetDock(0));
    plan.push(WindowAction::PersistDock(0));
    plan.push(WindowAction::RestorePin);
    plan.push(WindowAction::MarkShown);
    plan.push(WindowAction::SetNavigation(true));
    Some(plan)
}

/// Whether the user wants the window pinned: what is stored, or what is remembered
/// where the store is closed or unreadable.
pub open spec fn user_pinned(pinned: bool, stored: Option<StoredView>) -> bool {
    match stored {
        None => pinned,
        Some(StoredView::Unreadable) => pinned,
        Some(found) => found.flag_or(false),
    }
}

fn wanted_pin(pinned: bool, stored: &Option<Stored>) -> (res: bool)
    ensures
        res == user_pinned(pinned, stored_view(*stored)),
{
    match stored {
        None => pinned,
        Some(Stored::Unreadable) => pinned,
        Some(found) => found.flag_or(false),
    }
}

/// What was found in the store, if it was open.
pub open spec fn stored_view(stored: Option<Stored>) -> Option<StoredView> {
    match stored {
        Some(found) => Some(found@),
        None => None,
    }
}

/// The steps that restore the pin state after the window was pulled back.
pub open spec fn restore_pin_plan(platform: Platform, pinned: bool, wanted: bool) -> Seq<
    WindowAction,
> {
    if pinned == wanted {
        seq![WindowAction::SetPinned(wanted), WindowAction::AlwaysOnTop(wanted)]
    } else if platform == Platform::MacOs {
        seq![
            WindowAction::SetPinned(wanted),
            WindowAction::AlwaysOnTop(wanted),
            WindowAction::Focusable(!wanted),
            WindowAction::AnnouncePinned(wanted),
        ]
    } else {
        seq![
            WindowAction::SetPinned(wanted),
            WindowAction::AlwaysOnTop(wanted),
            WindowAction::AnnouncePinned(wanted),
        ]
    }
}

/// Restores the pin state after the window was pulled back: `pinned` is what is
/// remembered, `stored` what is found under `app.window_pinned`.
pub fn restore_pin_state_after_edge_expand(
    platform: Platform,
    pinned: bool,
    stored: &Option<Stored>,
) -> (res: Vec<WindowAction>)
    ensures
        res@ == restore_pin_plan(platform, pinned, user_pinned(pinned, stored_view(*stored))),
{
    let wanted = wanted_pin(pinned, stored);
    let mut plan: Vec<WindowAction> = Vec::new();
    plan.push(WindowAction::SetPinned(wanted));
    plan.push(WindowAction::AlwaysOnTop(wanted));
    if pinned != wanted {
        if platform == Platform::MacOs {
            plan.push(WindowAction::Focusable(!wanted));
        }
        plan.push(WindowAction::AnnouncePinned(wanted));
    }
    assert(plan@ == restore_pin_plan(platform, pinned, wanted));
    plan
}

/// The steps that restore the pin state on macOS after the window left an edge by
/// itself.
pub open spec fn restore_pin_undocked_plan(pinned: bool, wanted: bool) -> Seq<WindowAction> {
    if pinned == wanted {
        seq![WindowAction::SetPinned(wanted)]
    } else {
        seq![
            WindowAction::SetPinned(wanted),
            WindowAction::AlwaysOnTop(wanted),
            WindowAction::Focusable(true),
            WindowAction::AnnouncePinned(wanted),
        ]
    }
}

/// Restores the pin state on macOS after the window left an edge by itself.
pub fn restore_pin_state_after_undock(pinned: bool, stored: &Option<Stored>) -> (res: Vec<
    WindowAction,
>)
    ensures
        res@ == restore_pin_undocked_plan(pinned, user_pinned(pinned, stored_view(*stored))),
{
    let wanted = wanted_pin(pinned, stored);
    let mut plan: Vec<WindowAction> = Vec::new();
    plan.push(WindowAction::SetPinned(wanted));
    if pinned != wanted {
        plan.push(WindowAction::AlwaysOnTop(wanted));
        plan.push(WindowAction::Focusable(true));
        plan.push(WindowAction::AnnouncePinned(wanted));
    }
    assert(plan@ == restore_pin_undocked_plan(pinned, wanted));
    plan
}

/// The steps that bring a tucked window back when docking is switched off.
pub open spec fn release_plan(
    platform: Platform,
    flags: EdgeFlags,
    geometry: Option<WindowGeometry>,
) -> Seq<WindowAction> {
    let back = seq![WindowAction::Show, WindowAction::SetHidden(false), WindowAction::SetDock(0)];
    if !flags.hidden {
        Seq::empty()
    } else if platform == Platform::Windows {
        back
    } else {
        let stored = back.push(WindowAction::PersistDock(0));
        match release_target(flags, geometry) {
            Some(p) => seq![move_to(p)] + stored,
            None => stored,
        }
    }
}

/// Where a tucked window goes when docking is switched off.
pub open spec fn release_target(flags: EdgeFlags, geometry: Option<WindowGeometry>) -> Option<
    (int, int),
> {
    match geometry {
        Some(g) => expand_target(
            flags.dock,
            g.window.x as int,
            g.window.y as int,
            extent(g.window.width),
            g.monitor.x as int,
            g.monitor.y as int,
            g.monitor.right_edge(),
        ),
        None => None,
    }
}

/// Whether bringing the window back stays in the range of coordinates.
pub fn has_released_position(
    platform: Platform,
    flags: EdgeFlags,
    geometry: Option<WindowGeometry>,
) -> (res: bool)
    ensures
        res == (flags.hidden && platform != Platform::Windows ==> reachable(
            release_target(flags, geometry),
        )),
{
    if !flags.hidden || platform == Platform::Windows {
        return true;
    }
    match geometry {
        None => true,
        Some(g) => flags.dock != 3 || is_i32(
            g.monitor.x as i64 + signed_extent(g.monitor.width) as i64 - signed_extent(
                g.window.width,
            ) as i64,
        ),
    }
}

/// Brings a tucked window back when docking is switched off.
pub fn release_when_disabled(
    platform: Platform,
    flags: EdgeFlags,
    geometry: Option<WindowGeometry>,
) -> (res: Vec<WindowAction>)
    requires
        flags.hidden && platform != Platform::Windows ==> reachable(
            release_target(flags, geometry),
        ),
    ensures
        res@ == release_plan(platform, flags, geometry),
{
    let mut plan: Vec<WindowAction> = Vec::new();
    if !flags.hidden {
        return plan;
    }
    if platform != Platform::Windows {
        if let Some(g) = geometry {
            match flags.dock {
                1 => {
                    plan.push(move_step(g.window.x as i64, g.monitor.y as i64));
                },
                2 => {
                    plan.push(move_step(g.monitor.x as i64, g.window.y as i64));
                },
                3 => {
                    plan.push(
                        move_step(
                            g.monitor.x as i64 + signed_extent(g.monitor.width) as i64
                                - signed_extent(g.window.width) as i64,
                            g.window.y as i64,
                        ),
                    );
                },
                _ => {},
            }
        }
    }
    plan.push(WindowAction::Show);
    plan.push(WindowAction::SetHidden(false));
    plan.push(WindowAction::SetDock(0));
    if platform != Platform::Windows {
        plan.push(WindowAction::PersistDock(0));
    }
    assert(plan@ == release_plan(platform, flags, geometry));
    plan
}

/// The flags that agree with the real geometry: a window that is shown by more
/// than 18 percent, or that is docked to no edge, is not tucked away.
pub open spec fn reconciled(flags: EdgeFlags, window: Rect, screen: Rect) -> EdgeFlags {
    if flags.hidden && flags.dock == 0 {
        EdgeFlags { hidden: false, ..flags }
    } else if flags.hidden && clearly_visible(window, screen) {
        EdgeFlags { hidden: false, dock: 0 }
    } else {
        flags
    }
}

/// Whether the time in which flags are not reconciled still lasts.
pub fn in_grace(elapsed_ms: u64, grace_ms: u64) -> (res: bool)
    ensures
        res == (elapsed_ms < grace_ms),
{
    elapsed_ms < grace_ms
}

/// Whether a look of the docking monitor reconciles the flags first: Windows never
/// does, and nothing does while a restored position settles after the start.
pub fn reconciles(platform: Platform, in_grace: bool) -> (res: bool)
    ensures
        res == (platform != Platform::Windows && !in_grace),
{
    platform != Platform::Windows && !in_grace
}

/// Drops stale flags that disagree with the real geometry (after a resume, a
/// change of monitors or a restored start).
pub fn reconcile_stale_edge_hide(flags: &mut EdgeFlags, window: &Rect, screen: &Rect)
    ensures
        *final(flags) == reconciled(*old(flags), *window, *screen),
{
    if !flags.hidden {
        return;
    }
    if flags.dock == 0 {
        flags.hidden = false;
        return;
    }
    if is_clearly_visible(window, screen) {
        flags.hidden = false;
        flags.dock = 0;
    }
}

/// What the docking monitor does first on waking up.
#[derive(Clone, Copy, Debug, PartialEq, Eq, Structural)]
pub enum Look {
    /// Nothing until the next time.
    Skip,
    /// Docking is off but the window is still tucked away.
    Release,
    /// The window's geometry decides.
    Inspect,
}

/// Decides what the docking monitor does first: `docking` is whether docking is
/// switched on, where the settings are available at all.
pub fn first_look(
    docking: Option<bool>,
    hidden: bool,
    has_window: bool,
    minimized: bool,
) -> (res: Look)
    ensures
        res == Look::Release <==> docking == Some(false) && hidden && has_window,
        res == Look::Inspect <==> docking == Some(true) && has_window && !minimized,
{
    match docking {
        None => Look::Skip,
        Some(false) => if hidden && has_window {
            Look::Release
        } else {
            Look::Skip
        },
        Some(true) => if has_window && !minimized {
            Look::Inspect
        } else {
            Look::Skip
        },
    }
}

/// How long after the start flags are not reconciled, so that a restored position
/// can settle: only where the window started tucked away.
pub fn startup_grace_ms(hidden: bool) -> (res: u64)
    ensures
        res == if hidden {
            900
        } else {
            0u64
        },
{
    if hidden {
        900
    } else {
        0
    }
}

/// What one look of the docking monitor found.
#[derive(Clone, Copy, Debug, PartialEq, Eq, Structural)]
pub struct DockObservation {
    pub window: Rect,
    pub screen: Rect,
    pub cursor_x: i32,
    pub cursor_y: i32,
    pub visible: bool,
    /// The flags at the start of the look.
    pub flags: EdgeFlags,
    /// Whether the window is tucked away, read again just before acting.
    pub still_hidden: bool,
    pub pinned: bool,
    pub navigation: bool,
    pub now_ms: u64,
    pub last_show_ms: u64,
    pub button_down: bool,
}

/// `n / 2`, rounded towards zero.
pub open spec fn half(n: int) -> int {
    if n >= 0 {
        n / 2
    } else {
        -((-n) / 2)
    }
}

impl DockObservation {
    /// Milliseconds since the window was last shown.
    pub open spec fn since_show(self) -> int {
        elapsed(self.now_ms, self.last_show_ms)
    }

    /// Whether this look may act: on a tucked window always; on another one only
    /// if it is visible and was not shown a moment ago.
    pub open spec fn attentive(self) -> bool {
        self.flags.hidden || {
            &&& self.visible
            &&& self.since_show() >= 500
            &&& self.navigation ==> self.since_show() >= 800
        }
    }

    /// The pointer is over the window.
    pub open spec fn pointer_inside(self) -> bool {
        &&& self.window.left <= self.cursor_x <= self.window.right
        &&& self.window.top <= self.cursor_y <= self.window.bottom
    }

    /// The pointer is at the edge that the window is tucked to, beside the strip.
    pub open spec fn pointer_at_strip(self) -> bool {
        if self.flags.dock == 1 {
            &&& self.cursor_y <= self.screen.top + EDGE_THRESHOLD
            &&& self.window.left <= self.cursor_x <= self.window.right
        } else if self.flags.dock == 2 {
            &&& self.cursor_x <= self.screen.left + EDGE_THRESHOLD
            &&& self.window.top <= self.cursor_y <= self.window.bottom
        } else if self.flags.dock == 3 {
            &&& self.cursor_x >= self.screen.right - EDGE_THRESHOLD
            &&& self.window.top <= self.cursor_y <= self.window.bottom
        } else {
            false
        }
    }

    /// The middle of the window is on the screen.
    pub open spec fn centered_on_screen(self) -> bool {
        &&& self.screen.left <= half(self.window.left + self.window.right) < self.screen.right
        &&& self.screen.top <= half(self.window.top + self.window.bottom) < self.screen.bottom
    }

    /// The edge that the window is at.
    pub open spec fn edge(self) -> i32 {
        edge_at(
            self.window.left as int,
            self.window.top as int,
            self.window.right as int,
            self.screen.left as int,
            self.screen.top as int,
            self.screen.right as int,
        )
    }

    /// Where the window goes if it is tucked away now.
    pub open spec fn target(self) -> Option<(int, int)> {
        tuck_target(
            self.edge(),
            self.window.left as int,
            self.window.top as int,
            self.window.right - self.window.left,
            self.window.bottom - self.window.top,
            self.screen.left as int,
            self.screen.top as int,
            self.screen.right as int,
        )
    }

    /// Whether this look leads to the window being tucked away.
    pub open spec fn tucks(self, platform: Platform) -> bool {
        &&& !self.flags.hidden
        &&& self.attentive()
        &&& self.centered_on_screen()
        &&& self.edge() != 0
        &&& !self.pointer_inside()
        &&& !(platform == Platform::Windows && self.button_down)
        &&& !self.still_hidden
    }

    fn is_attentive(&self) -> (res: bool)
        ensures
            res == self.attentive(),
    {
        let since: u64 = elapsed_ms(self.now_ms, self.last_show_ms);
        self.flags.hidden || (self.visible && since >= 500 && (!self.navigation || since >= 800))
    }

    fn has_pointer_inside(&self) -> (res: bool)
        ensures
            res == self.pointer_inside(),
    {
        self.cursor_x >= self.window.left && self.cursor_x <= self.window.right && self.cursor_y
            >= self.window.top && self.cursor_y <= self.window.bottom
    }

    fn has_pointer_at_strip(&self) -> (res: bool)
        ensures
            res == self.pointer_at_strip(),
    {
        match self.flags.dock {
            1 => self.cursor_y as i64 <= self.screen.top as i64 + EDGE_THRESHOLD as i64
                && self.cursor_x >= self.window.left && self.cursor_x <= self.window.right,
            2 => self.cursor_x as i64 <= self.screen.left as i64 + EDGE_THRESHOLD as i64
                && self.cursor_y >= self.window.top && self.cursor_y <= self.window.bottom,
            3 => self.cursor_x as i64 >= self.screen.right as i64 - EDGE_THRESHOLD as i64
                && self.cursor_y >= self.window.top && self.cursor_y <= self.window.bottom,
            _ => false,
        }
    }

    fn is_centered_on_screen(&self) -> (res: bool)
        ensures
            res == self.centered_on_screen(),
    {
        let x: i64 = halved(self.window.left as i64 + self.window.right as i64);
        let y: i64 = halved(self.window.top as i64 + self.window.bottom as i64);
        x >= self.screen.left as i64 && x < self.screen.right as i64 && y >= self.screen.top as i64
            && y < self.screen.bottom as i64
    }

    /// Whether the window has room to be tucked away, if it is to be: its target is
    /// in the range of coordinates.
    pub fn has_room(&self, platform: Platform) -> (res: bool)
        ensures
            res == (self.tucks(platform) ==> reachable(self.target())),
    {
        let tucks = !self.flags.hidden && self.is_attentive() && self.is_centered_on_screen()
            && self.edge_now() != 0 && !self.has_pointer_inside() && !(platform == Platform::Windows
            && self.button_down) && !self.still_hidden;
        if !tucks {
            return true;
        }
        let (x, y) = self.tuck_corner();
        is_i32(x) && is_i32(y)
    }

    fn edge_now(&self) -> (res: i32)
        ensures
            res == self.edge(),
    {
        infer_edge_dock_from_geometry(
            self.window.left,
            self.window.top,
            self.window.right,
            self.screen.left,
            self.screen.top,
            self.screen.right,
        )
    }

    /// The corner of `target`, or the present one where there is none.
    fn tuck_corner(&self) -> (res: (i64, i64))
        ensures
            self.target() matches Some(p) ==> res.0 == p.0 && res.1 == p.1,
            self.target() is None ==> is_coordinate(res.0 as int) && is_coordinate(res.1 as int),
    {
        let width: i64 = self.window.right as i64 - self.window.left as i64;
        let height: i64 = self.window.bottom as i64 - self.window.top as i64;
        match self.edge_now() {
            1 => (
                self.window.left as i64,
                self.screen.top as i64 - height + HIDE_SIZE as i64,
            ),
            2 => (
                self.screen.left as i64 - width + HIDE_SIZE as i64,
                self.window.top as i64,
            ),
            3 => (self.screen.right as i64 - HIDE_SIZE as i64, self.window.top as i64),
            _ => (self.window.left as i64, self.window.top as i64),
        }
    }
}

fn halved(n: i64) -> (res: i64)
    requires
        n > i64::MIN,
    ensures
        res == half(n as int),
{
    if n >= 0 {
        n / 2
    } else {
        -((-n) / 2)
    }
}

/// The steps that raise the window above others before it is tucked away; the
/// remembered pin state stays what the user chose.
pub open spec fn raise_plan(platform: Platform, pinned: bool) -> Seq<WindowAction> {
    if pinned {
        Seq::empty()
    } else if platform == Platform::Windows {
        seq![WindowAction::AlwaysOnTop(true), WindowAction::NoActivate(true)]
    } else {
        seq![WindowAction::AlwaysOnTop(true)]
    }
}

/// The steps that tuck the window away at an edge.
pub open spec fn tuck_plan(platform: Platform, pinned: bool, edge: i32, target: (int, int)) -> Seq<
    WindowAction,
> {
    let tuck = raise_plan(platform, pinned) + seq![
        move_to(target),
        WindowAction::SetDock(edge),
        WindowAction::SetHidden(true),
    ];
    if platform == Platform::Windows {
        tuck
    } else {
        tuck.push(WindowAction::PersistDock(edge))
    }
}

/// The steps that forget the edge.
pub open spec fn forget_plan(platform: Platform) -> Seq<WindowAction> {
    let forget = seq![WindowAction::SetHidden(false), WindowAction::SetDock(0)];
    if platform == Platform::Windows {
        forget
    } else {
        forget.push(WindowAction::PersistDock(0))
    }
}

/// The steps for a window that has left its edge by itself.
pub open spec fn undock_plan(platform: Platform, pinned: bool) -> Seq<WindowAction> {
    if platform == Platform::Windows {
        forget_plan(platform) + seq![
            WindowAction::AlwaysOnTop(pinned),
            WindowAction::NoActivate(pinned),
        ]
    } else {
        forget_plan(platform).push(WindowAction::RestorePinUndocked)
    }
}

/// The steps that one look of the docking monitor leads to.
pub open spec fn dock_plan(platform: Platform, seen: DockObservation) -> Seq<WindowAction> {
    if !seen.attentive() {
        Seq::empty()
    } else if seen.flags.hidden {
        if seen.pointer_at_strip() {
            seq![WindowAction::ExpandFromEdge]
        } else {
            Seq::empty()
        }
    } else if !seen.centered_on_screen() {
        if seen.still_hidden {
            forget_plan(platform)
        } else {
            Seq::empty()
        }
    } else if seen.edge() == 0 {
        if seen.still_hidden {
            undock_plan(platform, seen.pinned)
        } else {
            Seq::empty()
        }
    } else if seen.tucks(platform) {
        tuck_plan(platform, seen.pinned, seen.edge(), seen.target()->0)
    } else {
        Seq::empty()
    }
}

/// Decides what one look of the docking monitor leads to. Windows neither stores
/// the edge nor docks while the mouse button is down; everything else docks the
/// way macOS does.
pub fn dock_step(platform: Platform, seen: &DockObservation) -> (res: Vec<WindowAction>)
    requires
        seen.tucks(platform) ==> reachable(seen.target()),
    ensures
        res@ == dock_plan(platform, *seen),
{
    let windows = platform == Platform::Windows;
    let mut plan: Vec<WindowAction> = Vec::new();
    if !seen.is_attentive() {
        return plan;
    }
    if seen.flags.hidden {
        if seen.has_pointer_at_strip() {
            plan.push(WindowAction::ExpandFromEdge);
        }
        assert(plan@ == dock_plan(platform, *seen));
        return plan;
    }
    if !seen.is_centered_on_screen() {
        if seen.still_hidden {
            plan.push(WindowAction::SetHidden(false));
            plan.push(WindowAction::SetDock(0));
            if !windows {
                plan.push(WindowAction::PersistDock(0));
            }
        }
        assert(plan@ == dock_plan(platform, *seen));
        return plan;
    }
    let edge: i32 = seen.edge_now();
    if edge == 0 {
        if seen.still_hidden {
            plan.push(WindowAction::SetHidden(false));
            plan.push(WindowAction::SetDock(0));
            if windows {
                plan.push(WindowAction::AlwaysOnTop(seen.pinned));
                plan.push(WindowAction::NoActivate(seen.pinned));
            } else {
                plan.push(WindowAction::PersistDock(0));
                plan.push(WindowAction::RestorePinUndocked);
            }
        }
        assert(plan@ == dock_plan(platform, *seen));
        return plan;
    }
    if seen.has_pointer_inside() || (windows && seen.button_down) || seen.still_hidden {
        return plan;
    }
    if !seen.pinned {
        plan.push(WindowAction::AlwaysOnTop(true));
        if windows {
            plan.push(WindowAction::NoActivate(true));
        }
    }
    assert(plan@ == raise_plan(platform, seen.pinned));
    let (x, y) = seen.tuck_corner();
    plan.push(move_step(x, y));
    plan.push(WindowAction::SetDock(edge));
    plan.push(WindowAction::SetHidden(true));
    if !windows {
        plan.push(WindowAction::PersistDock(edge));
    }
    assert(plan@ == tuck_plan(platform, seen.pinned, edge, seen.target()->0));
    plan
}

/// The docking monitor keeps a window tucked away exactly while it is docked to
/// an edge.
pub proof fn lemma_dock_plan_keeps_flags(platform: Platform, seen: DockObservation)
    requires
        seen.flags.consistent(),
        seen.still_hidden == seen.flags.hidden,
    ensures
        flags_after_all(seen.flags, dock_plan(platform, seen)).consistent(),
{
    reveal_with_fuel(flags_after_all, 8);
    let plan = dock_plan(platform, seen);
    if seen.tucks(platform) {
        let raise = raise_plan(platform, seen.pinned);
        let tuck = raise + seq![
            move_to(seen.target()->0),
            WindowAction::SetDock(seen.edge()),
            WindowAction::SetHidden(true),
        ];
        assert(flags_after_all(seen.flags, raise) == seen.flags);
        assert(tuck.drop_last().drop_last().drop_last() == raise);
        assert(flags_after_all(seen.flags, tuck) == EdgeFlags { hidden: true, dock: seen.edge() });
        if platform != Platform::Windows {
            assert(plan.drop_last() == tuck);
        }
    }
}

/// Pulling the window back, or releasing it, leaves it docked to no edge.
pub proof fn lemma_expanding_undocks(
    platform: Platform,
    flags: EdgeFlags,
    geometry: Option<WindowGeometry>,
    target: (int, int),
)
    ensures
        flags_after_all(flags, expand_plan(target)) == (EdgeFlags { hidden: false, dock: 0 }),
        flags.consistent() ==> flags_after_all(flags, release_plan(platform, flags, geometry)) == (
        EdgeFlags { hidden: false, dock: 0 }),
{
    reveal_with_fuel(flags_after_all, 10);
}

/// Reconciling never leaves a window tucked away that is docked to no edge, and
/// keeps consistent flags consistent.
pub proof fn lemma_reconciled_flags(flags: EdgeFlags, window: Rect, screen: Rect)
    ensures
        reconciled(flags, window, screen).hidden ==> reconciled(flags, window, screen).dock != 0,
        flags.consistent() ==> reconciled(flags, window, screen).consistent(),
        reconciled(reconciled(flags, window, screen), window, screen) == reconciled(
            flags,
            window,
            screen,
        ),
{
}

/// A tucked window leaves exactly the strip on screen; pulled back, it is flush
/// with the edge, and along the edge it is where it was before. One that is no wider
/// than its screen is then on screen from its left to its right edge.
pub proof fn lemma_expand_undoes_tuck(
    dock: i32,
    left: int,
    top: int,
    width: int,
    height: int,
    screen_left: int,
    screen_top: int,
    screen_right: int,
)
    requires
        1 <= dock <= 3,
    ensures
        tuck_target(dock, left, top, width, height, screen_left, screen_top, screen_right) matches Some(
            tucked,
        ) && expand_target(
            dock,
            tucked.0,
            tucked.1,
            width,
            screen_left,
            screen_top,
            screen_right,
        ) matches Some(back) && {
            &&& dock == 1 ==> tucked.1 + height == screen_top + HIDE_SIZE && back == (
                left,
                screen_top,
            )
            &&& dock == 2 ==> tucked.0 + width == screen_left + HIDE_SIZE && back == (
                screen_left,
                top,
            )
            &&& dock == 3 ==> tucked.0 == screen_right - HIDE_SIZE && back.0 + width == screen_right
                && back.1 == top
            &&& dock != 1 && width <= screen_right - screen_left ==> screen_left <= back.0 && back.0
                + width <= screen_right
        },
{
}

/// `moved` is the window of `seen` once it is tucked away.
pub open spec fn is_tucked_copy(seen: DockObservation, moved: Rect) -> bool {
    &&& seen.target() == Some((moved.left as int, moved.top as int))
    &&& moved.right - moved.left == seen.window.right - seen.window.left
    &&& moved.bottom - moved.top == seen.window.bottom - seen.window.top
}

/// A window that was just tucked away is not mistaken for a stale one, and the edge
/// shows from its geometry alone. It must extend at least 17 pixels away from its edge,
/// and at the right edge its screen must be wider than the strip and the threshold.
pub proof fn lemma_tucked_window_stays_tucked(seen: DockObservation, moved: Rect)
    requires
        is_tucked_copy(seen, moved),
        seen.edge() == 1 ==> seen.window.bottom - seen.window.top >= 17,
        seen.edge() != 1 ==> seen.window.right - seen.window.left >= 17,
        seen.edge() == 3 ==> seen.screen.right - seen.screen.left > EDGE_THRESHOLD + HIDE_SIZE,
    ensures
        reconciled(EdgeFlags { hidden: true, dock: seen.edge() }, moved, seen.screen) == (EdgeFlags {
            hidden: true,
            dock: seen.edge(),
        }),
        edge_at(
            moved.left as int,
            moved.top as int,
            moved.right as int,
            seen.screen.left as int,
            seen.screen.top as int,
            seen.screen.right as int,
        ) == seen.edge(),
{
    let screen = seen.screen;
    let wide = span(
        larger(moved.left, screen.left),
        smaller(moved.right, screen.right),
        0,
    );
    let high = span(larger(moved.top, screen.top), smaller(moved.bottom, screen.bottom), 0);
    let full_wide = span(moved.left as int, moved.right as int, 1);
    let full_high = span(moved.top as int, moved.bottom as int, 1);
    assert(wide <= full_wide && high <= full_high);
    assert(17 * (wide * high) <= 3 * (full_wide * full_high)) by {
        if seen.edge() == 1 {
            assert(high <= 3 && full_high >= 17);
            assert(17 * (wide * high) <= 3 * (full_wide * full_high)) by (nonlinear_arith)
                requires
                    wide <= full_wide,
                    high <= 3,
                    full_high >= 17,
            ;
        } else {
            assert(wide <= 3 && full_wide >= 17);
            assert(17 * (wide * high) <= 3 * (full_wide * full_high)) by (nonlinear_arith)
                requires
                    high <= full_high,
                    wide <= 3,
                    full_wide >= 17,
            ;
        }
    }
    lemma_strip_is_not_above(wide * high, full_wide * full_high);
}

/// A window that was shown less than half a second ago is not docked; the pointer
/// at the strip reveals a tucked one at any time.
pub proof fn lemma_grace_never_blocks_reveal(platform: Platform, seen: DockObservation)
    ensures
        !seen.flags.hidden && seen.since_show() < 500 ==> dock_plan(platform, seen) == Seq::<
            WindowAction,
        >::empty(),
        seen.flags.hidden && seen.pointer_at_strip() ==> dock_plan(platform, seen) == seq![
            WindowAction::ExpandFromEdge,
        ],
{
}

/// The docking monitor never changes the remembered pin state itself.
pub proof fn lemma_docking_leaves_pin_alone(platform: Platform, seen: DockObservation, i: int)
    requires
        0 <= i < dock_plan(platform, seen).len(),
    ensures
        !(dock_plan(platform, seen)[i] is SetPinned),
{
}

} // verus!
