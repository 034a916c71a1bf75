//! Laws of docking to screen edges.

use vstd::prelude::*;

use crate::edge_dock::{
    apply_dock_position_on_main, dock_step, dock_token_for, expand_from_edge_dock, first_look,
    has_dock_position, has_expanded_position, has_released_position, in_grace,
    infer_edge_dock_from_geometry, is_window_edge_tucked, parse_dock_token, persist_edge_dock,
    reconcile_stale_edge_hide, reconciles, release_when_disabled,
    restore_pin_state_after_edge_expand, restore_pin_state_after_undock, startup_grace_ms,
    DockObservation, Look,
};
use crate::geometry::{
    is_barely_visible, is_clearly_visible, signed_extent, visibility_ratio_on_monitor, Placement,
    Rect, WindowGeometry,
};
use crate::plan::{EdgeFlags, WindowAction};
use crate::platform::Platform;
use crate::settings_store::{SettingWrite, Stored, StoredView};
use crate::text::{lowered, trimmed};

verus! {

/// A token names an edge in any case and with white space around it; any other token
/// names none.
pub proof fn law_tokens_name_edges(token: &str, res: i32)
    requires
        call_ensures(parse_dock_token, (token,), res),
    ensures
        res == 1 <==> lowered(trimmed(token@)) == "top"@,
        res == 2 <==> lowered(trimmed(token@)) == "left"@,
        res == 3 <==> lowered(trimmed(token@)) == "right"@,
        0 <= res <= 3,
{
    reveal_strlit("top");
    reveal_strlit("left");
    reveal_strlit("right");
    assert("top"@.len() == 3 && "left"@.len() == 4 && "right"@.len() == 5);
}

/// The token of an edge is read as that edge again, and only macOS stores it.
pub proof fn law_tokens_read_back(
    platform: Platform,
    dock: i32,
    token: &'static str,
    back: i32,
    write: Option<SettingWrite>,
)
    requires
        call_ensures(dock_token_for, (dock,), token),
        call_ensures(parse_dock_token, (token,), back),
        call_ensures(persist_edge_dock, (platform, dock), write),
    ensures
        1 <= dock <= 3 ==> back == dock,
        !(1 <= dock <= 3) ==> back == 0 && token@ == "none"@,
        write is Some <==> platform is MacOs,
        write matches Some(w) ==> w.key@ == "app.last_edge_dock"@ && w.value@ == token@,
{
    if 0 <= dock <= 3 {
        crate::edge_dock::lemma_dock_token_reads_back(dock);
    } else {
        crate::edge_dock::lemma_dock_token_reads_back(0);
    }
}

/// A window is at an edge where it is within five pixels of it or beyond; of several the
/// top edge comes first, and the left before the right.
pub proof fn law_edges_are_five_pixels_wide(
    left: i32,
    top: i32,
    right: i32,
    screen_left: i32,
    screen_top: i32,
    screen_right: i32,
    res: i32,
)
    requires
        call_ensures(
            infer_edge_dock_from_geometry,
            (left, top, right, screen_left, screen_top, screen_right),
            res,
        ),
    ensures
        res == 1 <==> top - screen_top <= 5,
        res == 2 <==> top - screen_top > 5 && left - screen_left <= 5,
        res == 3 <==> top - screen_top > 5 && left - screen_left > 5 && screen_right - right <= 5,
        0 <= res <= 3,
{
}

/// The middle of two coordinates, rounded towards zero.
pub open spec fn middle(a: int, b: int) -> int {
    if a + b >= 0 {
        (a + b) / 2
    } else {
        -((-(a + b)) / 2)
    }
}

/// Whether the middle of the window is on its screen.
pub open spec fn on_its_screen(seen: DockObservation) -> bool {
    &&& seen.screen.left <= middle(seen.window.left as int, seen.window.right as int)
        < seen.screen.right
    &&& seen.screen.top <= middle(seen.window.top as int, seen.window.bottom as int)
        < seen.screen.bottom
}

/// Whether the pointer is within the window.
pub open spec fn pointer_within(seen: DockObservation) -> bool {
    &&& seen.window.left <= seen.cursor_x <= seen.window.right
    &&& seen.window.top <= seen.cursor_y <= seen.window.bottom
}

/// Whether a window that is not tucked away has been visible for long enough to be
/// docked: half a second, and eight tenths while it is used by keyboard.
pub open spec fn settled(seen: DockObservation) -> bool {
    &&& seen.visible
    &&& seen.now_ms - seen.last_show_ms >= 500
    &&& seen.navigation ==> seen.now_ms - seen.last_show_ms >= 800
}

/// Whether the window is within five pixels of the top, left or right edge.
pub open spec fn near_an_edge(seen: DockObservation) -> bool {
    ||| seen.window.top - seen.screen.top <= 5
    ||| seen.window.left - seen.screen.left <= 5
    ||| seen.screen.right - seen.window.right <= 5
}

/// A tucked window is pulled back exactly by a pointer within five pixels of its edge and
/// beside it; nothing else happens to it.
pub proof fn law_pointer_at_the_edge_reveals(
    platform: Platform,
    seen: DockObservation,
    res: Vec<WindowAction>,
)
    requires
        call_ensures(dock_step, (platform, &seen), res),
        seen.flags.hidden,
    ensures
        res@.len() <= 1,
        res@.len() == 1 ==> res@[0] == WindowAction::ExpandFromEdge,
        res@.len() == 1 <==> {
            ||| seen.flags.dock == 1 && seen.cursor_y - seen.screen.top <= 5 && seen.window.left
                <= seen.cursor_x <= seen.window.right
            ||| seen.flags.dock == 2 && seen.cursor_x - seen.screen.left <= 5 && seen.window.top
                <= seen.cursor_y <= seen.window.bottom
            ||| seen.flags.dock == 3 && seen.screen.right - seen.cursor_x <= 5 && seen.window.top
                <= seen.cursor_y <= seen.window.bottom
        },
{
}

/// A window that a look tucked away is pulled back by every later look that finds the
/// pointer on the part of it that is still on screen.
pub proof fn law_strip_reveals_what_was_tucked(
    platform: Platform,
    seen: DockObservation,
    tucked: Vec<WindowAction>,
    later: DockObservation,
    x: i32,
    y: i32,
    edge: i32,
    res: Vec<WindowAction>,
)
    requires
        call_ensures(dock_step, (platform, &seen), tucked),
        call_ensures(dock_step, (platform, &later), res),
        in_range(seen),
        tucked@.contains(WindowAction::MoveTo { x, y }),
        tucked@.contains(WindowAction::SetDock(edge)),
        edge != 0,
        later.flags == (EdgeFlags { hidden: true, dock: edge }),
        later.screen == seen.screen,
        later.window.left == x,
        later.window.top == y,
        later.window.right - x == seen.window.right - seen.window.left,
        later.window.bottom - y == seen.window.bottom - seen.window.top,
        pointer_within(later),
        later.screen.left <= later.cursor_x <= later.screen.right,
        later.screen.top <= later.cursor_y <= later.screen.bottom,
    ensures
        res@ == seq![WindowAction::ExpandFromEdge],
{
}

/// Whether the positions that a look may move the window to are coordinates.
pub open spec fn in_range(seen: DockObservation) -> bool {
    &&& i32::MIN <= seen.screen.top - (seen.window.bottom - seen.window.top) + 3 <= i32::MAX
    &&& i32::MIN <= seen.screen.left - (seen.window.right - seen.window.left) + 3 <= i32::MAX
    &&& i32::MIN <= seen.screen.right - 3 <= i32::MAX
}

/// A window is tucked away exactly where it has settled near an edge of the screen that
/// its middle is on, the pointer is elsewhere, and, on Windows, no button is down.
pub proof fn law_window_is_tucked_where_it_rests(
    platform: Platform,
    seen: DockObservation,
    res: Vec<WindowAction>,
)
    requires
        call_ensures(dock_step, (platform, &seen), res),
    ensures
        res@.contains(WindowAction::SetHidden(true)) <==> {
            &&& !seen.flags.hidden
            &&& !seen.still_hidden
            &&& settled(seen)
            &&& on_its_screen(seen)
            &&& near_an_edge(seen)
            &&& !pointer_within(seen)
            &&& !(platform is Windows && seen.button_down)
        },
{
    if seen.tucks(platform) {
        let raise = crate::edge_dock::raise_plan(platform, seen.pinned).len() as int;
        assert(res@[raise + 2] == WindowAction::SetHidden(true));
    }
}

/// A window that is tucked away is moved so that three pixels of it stay on screen, with
/// its place along the edge kept; the edge is remembered, and stored but on Windows. It is
/// raised above others unless the user has pinned it.
pub proof fn law_tucking_leaves_three_pixels(
    platform: Platform,
    seen: DockObservation,
    res: Vec<WindowAction>,
    x: i32,
    y: i32,
    edge: i32,
    on: bool,
)
    requires
        call_ensures(dock_step, (platform, &seen), res),
        in_range(seen),
        res@.contains(WindowAction::SetHidden(true)),
    ensures
        res@.contains(WindowAction::MoveTo { x, y }) <==> if seen.window.top - seen.screen.top
            <= 5 {
            x == seen.window.left && y + (seen.window.bottom - seen.window.top)
                == seen.screen.top + 3
        } else if seen.window.left - seen.screen.left <= 5 {
            y == seen.window.top && x + (seen.window.right - seen.window.left)
                == seen.screen.left + 3
        } else {
            y == seen.window.top && x == seen.screen.right - 3
        },
        res@.contains(WindowAction::SetDock(edge)) <==> edge == if seen.window.top
            - seen.screen.top <= 5 {
            1int
        } else if seen.window.left - seen.screen.left <= 5 {
            2
        } else {
            3
        },
        res@.contains(WindowAction::PersistDock(edge)) <==> res@.contains(
            WindowAction::SetDock(edge),
        ) && !(platform is Windows),
        res@.contains(WindowAction::AlwaysOnTop(on)) <==> on && !seen.pinned,
        res@.contains(WindowAction::NoActivate(on)) <==> on && !seen.pinned && platform is Windows,
        !res@.contains(WindowAction::SetHidden(false)),
{
    let raise = crate::edge_dock::raise_plan(platform, seen.pinned).len() as int;
    if seen.tucks(platform) {
        assert(res@[raise + 1] == WindowAction::SetDock(seen.edge()));
        assert(res@[raise] == crate::edge_dock::move_to(seen.target()->0));
        if !(platform is Windows) {
            assert(res@[raise + 3] == WindowAction::PersistDock(seen.edge()));
        }
        if !seen.pinned {
            assert(res@[0] == WindowAction::AlwaysOnTop(true));
            if platform is Windows {
                assert(res@[1] == WindowAction::NoActivate(true));
            }
        }
    }
}

/// The place of a step in tucking a window away.
pub open spec fn tuck_rank(action: WindowAction) -> int {
    match action {
        WindowAction::AlwaysOnTop(_) => 0,
        WindowAction::NoActivate(_) => 1,
        WindowAction::MoveTo { .. } => 2,
        WindowAction::SetDock(_) => 3,
        WindowAction::SetHidden(_) => 4,
        WindowAction::PersistDock(_) => 5,
        _ => 6,
    }
}

/// A window is raised before it is moved, moved before the edge is remembered, and the edge
/// is stored last; nothing happens twice.
pub proof fn law_tucking_goes_in_order(
    platform: Platform,
    seen: DockObservation,
    i: int,
    j: int,
    res: Vec<WindowAction>,
)
    requires
        call_ensures(dock_step, (platform, &seen), res),
        res@.contains(WindowAction::SetHidden(true)),
        0 <= i < j < res@.len(),
    ensures
        tuck_rank(res@[i]) < tuck_rank(res@[j]) <= 5,
{
}

/// Where a look finds flags that have changed under it, it forgets the edge: the window has
/// left its screen or every edge. What follows for the pin depends on the system.
pub proof fn law_stray_windows_are_forgotten(
    platform: Platform,
    seen: DockObservation,
    res: Vec<WindowAction>,
    on: bool,
)
    requires
        call_ensures(dock_step, (platform, &seen), res),
    ensures
        ({
            let stray = !seen.flags.hidden && seen.still_hidden && settled(seen) && (
            !on_its_screen(seen) || !near_an_edge(seen));
            &&& res@.contains(WindowAction::SetHidden(false)) <==> stray
            &&& res@.contains(WindowAction::SetDock(0)) <==> stray
            &&& res@.contains(WindowAction::PersistDock(0)) <==> stray && !(platform is Windows)
            &&& res@.contains(WindowAction::RestorePinUndocked) <==> stray && on_its_screen(seen)
                && !(platform is Windows)
            &&& stray ==> (res@.contains(WindowAction::NoActivate(on)) <==> platform is Windows
                && on_its_screen(seen) && on == seen.pinned)
            &&& stray ==> (res@.contains(WindowAction::AlwaysOnTop(on)) <==> platform is Windows
                && on_its_screen(seen) && on == seen.pinned)
            &&& stray ==> res@.len() <= 4
        }),
{
    if !seen.flags.hidden && seen.still_hidden && settled(seen) && (!on_its_screen(seen)
        || !near_an_edge(seen)) {
        assert(res@[0] == WindowAction::SetHidden(false));
        assert(res@[1] == WindowAction::SetDock(0));
        if platform is Windows {
            if on_its_screen(seen) {
                assert(res@[2] == WindowAction::AlwaysOnTop(seen.pinned));
                assert(res@[3] == WindowAction::NoActivate(seen.pinned));
            }
        } else {
            assert(res@[2] == WindowAction::PersistDock(0));
            if on_its_screen(seen) {
                assert(res@[3] == WindowAction::RestorePinUndocked);
            }
        }
    }
}

/// A look that neither reveals, tucks away nor forgets does nothing.
pub proof fn law_other_looks_do_nothing(
    platform: Platform,
    seen: DockObservation,
    res: Vec<WindowAction>,
)
    requires
        call_ensures(dock_step, (platform, &seen), res),
    ensures
        res@.len() > 0 ==> res@.contains(WindowAction::ExpandFromEdge) || res@.contains(
            WindowAction::SetHidden(true),
        ) || res@.contains(WindowAction::SetHidden(false)),
        res@.contains(WindowAction::ExpandFromEdge) ==> seen.flags.hidden && res@.len() == 1,
        !res@.contains(WindowAction::Show),
        !res@.contains(WindowAction::Focus),
{
    if res@.len() > 0 {
        assert(res@.contains(res@[0]));
        if seen.tucks(platform) {
            let raise = crate::edge_dock::raise_plan(platform, seen.pinned).len() as int;
            assert(res@[raise + 2] == WindowAction::SetHidden(true));
        }
    }
}

/// The placement of a window of ordinary size: its far edges are coordinates.
pub open spec fn ordinary(p: Placement) -> bool {
    &&& p.width <= i32::MAX
    &&& p.height <= i32::MAX
    &&& p.x + p.width <= i32::MAX
    &&& p.y + p.height <= i32::MAX
}

/// A docked start moves the window so that three pixels of it stay on screen, and only
/// where there is an edge to dock to.
pub proof fn law_dock_position_leaves_three_pixels(
    geometry: Option<WindowGeometry>,
    dock: i32,
    x: i32,
    y: i32,
    res: Option<WindowAction>,
)
    requires
        call_ensures(apply_dock_position_on_main, (geometry, dock), res),
        geometry matches Some(g) ==> ordinary(g.window) && ordinary(g.monitor) && i32::MIN
            <= g.monitor.y - g.window.height + 3 <= i32::MAX && i32::MIN <= g.monitor.x
            - g.window.width + 3 <= i32::MAX && g.monitor.x + g.monitor.width - 3 >= i32::MIN,
    ensures
        res is Some <==> geometry is Some && 1 <= dock <= 3,
        res is Some ==> res->0 is MoveTo,
        res == Some(WindowAction::MoveTo { x, y }) && dock == 1 ==> x == geometry->0.window.x && y
            + geometry->0.window.height == geometry->0.monitor.y + 3,
        res == Some(WindowAction::MoveTo { x, y }) && dock == 2 ==> y == geometry->0.window.y && x
            + geometry->0.window.width == geometry->0.monitor.x + 3,
        res == Some(WindowAction::MoveTo { x, y }) && dock == 3 ==> y == geometry->0.window.y && x
            == geometry->0.monitor.x + geometry->0.monitor.width - 3,
{
}

/// Pulling the window back puts it flush with its edge and keeps its place along it. The
/// edge is the remembered one, or without one the edge that the window is at.
pub proof fn law_expanded_window_is_flush(
    dock: i32,
    geometry: Option<WindowGeometry>,
    x: i32,
    y: i32,
    edge: i32,
    res: Option<Vec<WindowAction>>,
)
    requires
        call_ensures(expand_from_edge_dock, (dock, geometry), res),
        geometry matches Some(g) ==> ordinary(g.window) && ordinary(g.monitor) && g.monitor.x
            + g.monitor.width - g.window.width >= i32::MIN && (if dock != 0 {
            edge == dock
        } else {
            call_ensures(
                infer_edge_dock_from_geometry,
                (
                    g.window.x,
                    g.window.y,
                    (g.window.x + g.window.width) as i32,
                    g.monitor.x,
                    g.monitor.y,
                    (g.monitor.x + g.monitor.width) as i32,
                ),
                edge,
            )
        }),
    ensures
        res is Some <==> geometry is Some && 1 <= edge <= 3,
        res matches Some(plan) ==> plan@.len() == 8 && plan@[0] is MoveTo && (plan@[0] == (
        WindowAction::MoveTo { x, y }) ==> {
            &&& edge == 1 ==> x == geometry->0.window.x && y == geometry->0.monitor.y
            &&& edge == 2 ==> x == geometry->0.monitor.x && y == geometry->0.window.y
            &&& edge == 3 ==> x + geometry->0.window.width == geometry->0.monitor.x
                + geometry->0.monitor.width && y == geometry->0.window.y
        }),
{
}

/// Pulling the window back shows it, forgets the edge here and in the store, restores the
/// pin, and lets the keyboard navigate; nothing else is done.
pub proof fn law_expanding_forgets_the_edge(
    dock: i32,
    geometry: Option<WindowGeometry>,
    res: Option<Vec<WindowAction>>,
    i: int,
)
    requires
        call_ensures(expand_from_edge_dock, (dock, geometry), res),
    ensures
        res matches Some(plan) ==> {
            &&& plan@.contains(WindowAction::Show)
            &&& plan@.contains(WindowAction::SetHidden(false))
            &&& plan@.contains(WindowAction::SetDock(0))
            &&& plan@.contains(WindowAction::PersistDock(0))
            &&& plan@.contains(WindowAction::RestorePin)
            &&& plan@.contains(WindowAction::MarkShown)
            &&& plan@.contains(WindowAction::SetNavigation(true))
            &&& plan@.no_duplicates()
            &&& 0 < i < plan@.len() && plan@[i] == WindowAction::RestorePin ==> plan@.take(
                i,
            ).contains(WindowAction::SetHidden(false)) && plan@.take(i).contains(
                WindowAction::Show,
            )
        },
{
    if let Some(plan) = res {
        let p = plan@;
        assert(p[1] == WindowAction::Show);
        assert(p[2] == WindowAction::SetHidden(false));
        assert(p[3] == WindowAction::SetDock(0));
        assert(p[4] == WindowAction::PersistDock(0));
        assert(p[5] == WindowAction::RestorePin);
        assert(p[6] == WindowAction::MarkShown);
        assert(p[7] == WindowAction::SetNavigation(true));
        if 0 < i < p.len() && p[i] == WindowAction::RestorePin {
            assert(p.take(i)[1] == WindowAction::Show);
            assert(p.take(i)[2] == WindowAction::SetHidden(false));
        }
    }
}

/// What the user wants of the pin: the stored value where there is one to be had, else
/// what is remembered.
pub open spec fn wants_pin(pinned: bool, stored: Option<Stored>, wanted: bool) -> bool {
    &&& stored is None || stored->0@ is Unreadable ==> wanted == pinned
    &&& stored is Some && stored->0@ is Missing ==> !wanted
    &&& stored is Some && stored->0@ is Value ==> (wanted <==> stored->0@ == StoredView::Value(
        "true"@,
    ))
}

/// After the window was pulled back its pin is what the user wants; the interface and, on
/// macOS, the focus are told only of a change.
pub proof fn law_pin_is_restored(
    platform: Platform,
    pinned: bool,
    stored: Option<Stored>,
    wanted: bool,
    on: bool,
    res: Vec<WindowAction>,
)
    requires
        call_ensures(restore_pin_state_after_edge_expand, (platform, pinned, &stored), res),
        wants_pin(pinned, stored, wanted),
    ensures
        res@.contains(WindowAction::SetPinned(on)) <==> on == wanted,
        res@.contains(WindowAction::AlwaysOnTop(on)) <==> on == wanted,
        res@.contains(WindowAction::AnnouncePinned(on)) <==> on == wanted && wanted != pinned,
        res@.contains(WindowAction::Focusable(on)) <==> on != wanted && wanted != pinned
            && platform is MacOs,
        res@.len() <= 4,
        res@[0] is SetPinned && res@[1] is AlwaysOnTop,
        wanted != pinned ==> res@.last() is AnnouncePinned,
{
    assert(res@[0] == WindowAction::SetPinned(wanted));
    assert(res@[1] == WindowAction::AlwaysOnTop(wanted));
    if wanted != pinned {
        assert(res@.last() == WindowAction::AnnouncePinned(wanted));
        assert(res@[res@.len() - 1] == res@.last());
        if platform is MacOs {
            assert(res@[2] == WindowAction::Focusable(!wanted));
        }
    }
}

/// After the window left an edge by itself its pin is what the user wants; where that is no
/// change, nothing else happens.
pub proof fn law_pin_is_restored_after_undocking(
    pinned: bool,
    stored: Option<Stored>,
    wanted: bool,
    on: bool,
    res: Vec<WindowAction>,
)
    requires
        call_ensures(restore_pin_state_after_undock, (pinned, &stored), res),
        wants_pin(pinned, stored, wanted),
    ensures
        res@.contains(WindowAction::SetPinned(on)) <==> on == wanted,
        res@.contains(WindowAction::AlwaysOnTop(on)) <==> on == wanted && wanted != pinned,
        res@.contains(WindowAction::AnnouncePinned(on)) <==> on == wanted && wanted != pinned,
        res@.contains(WindowAction::Focusable(on)) <==> on && wanted != pinned,
        res@.len() <= 4,
        res@[0] is SetPinned,
        wanted != pinned ==> res@.last() is AnnouncePinned,
{
    assert(res@[0] == WindowAction::SetPinned(wanted));
    if wanted != pinned {
        assert(res@[1] == WindowAction::AlwaysOnTop(wanted));
        assert(res@[2] == WindowAction::Focusable(true));
        assert(res@[3] == WindowAction::AnnouncePinned(wanted));
    }
}

/// Switching docking off brings a tucked window back, flush with its edge but on Windows,
/// and forgets the edge; a window that is not tucked away is left alone.
pub proof fn law_release_brings_the_window_back(
    platform: Platform,
    flags: EdgeFlags,
    geometry: Option<WindowGeometry>,
    x: i32,
    y: i32,
    res: Vec<WindowAction>,
)
    requires
        call_ensures(release_when_disabled, (platform, flags, geometry), res),
        geometry matches Some(g) ==> ordinary(g.window) && ordinary(g.monitor) && g.monitor.x
            + g.monitor.width - g.window.width >= i32::MIN,
    ensures
        !flags.hidden ==> res@.len() == 0,
        res@.contains(WindowAction::Show) <==> flags.hidden,
        res@.contains(WindowAction::SetHidden(false)) <==> flags.hidden,
        res@.contains(WindowAction::SetDock(0)) <==> flags.hidden,
        res@.contains(WindowAction::PersistDock(0)) <==> flags.hidden && !(platform is Windows),
        res@.contains(WindowAction::MoveTo { x, y }) <==> {
            &&& flags.hidden
            &&& !(platform is Windows)
            &&& geometry is Some
            &&& {
                ||| flags.dock == 1 && x == geometry->0.window.x && y == geometry->0.monitor.y
                ||| flags.dock == 2 && x == geometry->0.monitor.x && y == geometry->0.window.y
                ||| flags.dock == 3 && x + geometry->0.window.width == geometry->0.monitor.x
                    + geometry->0.monitor.width && y == geometry->0.window.y
            }
        },
        res@.len() <= 5,
        res@.contains(WindowAction::MoveTo { x, y }) ==> res@[0] is MoveTo,
        flags.hidden && !(platform is Windows) ==> res@.last() is PersistDock,
{
    if flags.hidden {
        let moved: int = if !(platform is Windows) && geometry is Some && 1 <= flags.dock <= 3 {
            1
        } else {
            0
        };
        assert(res@[moved] == WindowAction::Show);
        assert(res@[moved + 1] == WindowAction::SetHidden(false));
        assert(res@[moved + 2] == WindowAction::SetDock(0));
        if !(platform is Windows) {
            assert(res@[moved + 3] == WindowAction::PersistDock(0));
        }
        if moved == 1 {
            assert(res@[0] is MoveTo);
        }
    }
}

/// Whether a number is a coordinate.
pub open spec fn coordinate(n: int) -> bool {
    -0x8000_0000 <= n <= 0x7fff_ffff
}

/// The positions that a window of ordinary size is moved to are known to be coordinates
/// exactly where they are: for docking the one with three pixels on screen, for the way
/// back the one flush with the edge.
pub proof fn law_positions_are_known_to_be_coordinates(
    platform: Platform,
    flags: EdgeFlags,
    g: WindowGeometry,
    dock: i32,
    docks: bool,
    expands: bool,
    releases: bool,
)
    requires
        call_ensures(has_dock_position, (Some(g), dock), docks),
        call_ensures(has_expanded_position, (dock, Some(g)), expands),
        call_ensures(has_released_position, (platform, flags, Some(g)), releases),
        ordinary(g.window),
        ordinary(g.monitor),
    ensures
        dock == 1 ==> (docks <==> coordinate(g.monitor.y - g.window.height + 3)),
        dock == 2 ==> (docks <==> coordinate(g.monitor.x - g.window.width + 3)),
        dock == 3 ==> (docks <==> coordinate(g.monitor.x + g.monitor.width - 3)),
        !(1 <= dock <= 3) ==> docks,
        dock == 3 ==> (expands <==> coordinate(g.monitor.x + g.monitor.width - g.window.width)),
        dock != 0 && dock != 3 ==> expands,
        flags.hidden && !(platform is Windows) && flags.dock == 3 ==> (releases <==> coordinate(
            g.monitor.x + g.monitor.width - g.window.width,
        )),
        !flags.hidden || platform is Windows || flags.dock != 3 ==> releases,
{
}

/// A window whose place is not known is moved nowhere, so no position can be out of range.
pub proof fn law_unknown_places_are_no_hindrance(
    platform: Platform,
    flags: EdgeFlags,
    dock: i32,
    docks: bool,
    expands: bool,
    releases: bool,
)
    requires
        call_ensures(has_dock_position, (None::<WindowGeometry>, dock), docks),
        call_ensures(has_expanded_position, (dock, None::<WindowGeometry>), expands),
        call_ensures(has_released_position, (platform, flags, None::<WindowGeometry>), releases),
    ensures
        docks && expands && releases,
{
}

/// A look has room exactly where the window is not about to be tucked away, or the place
/// for it at its edge is a coordinate.
pub proof fn law_room_is_for_the_edge(platform: Platform, seen: DockObservation, res: bool)
    requires
        call_ensures(DockObservation::has_room, (&seen, platform), res),
    ensures
        in_range(seen) ==> res,
        seen.flags.hidden || seen.still_hidden || !settled(seen) || !on_its_screen(seen)
            || !near_an_edge(seen) || pointer_within(seen) || (platform is Windows
            && seen.button_down) ==> res,
        !seen.flags.hidden && !seen.still_hidden && settled(seen) && on_its_screen(seen)
            && near_an_edge(seen) && !pointer_within(seen) && !(platform is Windows
            && seen.button_down) ==> (res <==> if seen.window.top - seen.screen.top <= 5 {
            coordinate(seen.screen.top - (seen.window.bottom - seen.window.top) + 3)
        } else if seen.window.left - seen.screen.left <= 5 {
            coordinate(seen.screen.left - (seen.window.right - seen.window.left) + 3)
        } else {
            coordinate(seen.screen.right - 3)
        }),
{
}

/// The larger of two coordinates.
pub open spec fn upper(a: i32, b: i32) -> int {
    if a >= b {
        a as int
    } else {
        b as int
    }
}

/// The smaller of two coordinates.
pub open spec fn lower(a: i32, b: i32) -> int {
    if a >= b {
        b as int
    } else {
        a as int
    }
}

/// A distance as a length: of at least so many pixels, and no more than a coordinate.
pub open spec fn length(distance: int, least: int) -> int {
    if distance > 0x7fff_ffff {
        0x7fff_ffff
    } else if distance < least {
        least
    } else {
        distance
    }
}

/// The visible area is that of what the window and the screen share, the total area that of
/// the window, which is at least a pixel wide and high.
pub proof fn law_visible_area_is_shared(window: Rect, screen: Rect, res: (u64, u64))
    requires
        call_ensures(visibility_ratio_on_monitor, (&window, &screen), res),
    ensures
        res.1 == length(window.right - window.left, 1) * length(window.bottom - window.top, 1),
        res.0 <= res.1,
        ({
            let wide = lower(window.right, screen.right) - upper(window.left, screen.left);
            let high = lower(window.bottom, screen.bottom) - upper(window.top, screen.top);
            &&& res.0 == length(wide, 0) * length(high, 0)
            &&& wide <= 0 || high <= 0 ==> res.0 == 0
        }),
{
    lemma_shared_is_part(window, screen);
    let wide = lower(window.right, screen.right) - upper(window.left, screen.left);
    let high = lower(window.bottom, screen.bottom) - upper(window.top, screen.top);
    if wide <= 0 || high <= 0 {
        let a = crate::geometry::span(
            crate::geometry::larger(window.left, screen.left),
            crate::geometry::smaller(window.right, screen.right),
            0,
        );
        let b = crate::geometry::span(
            crate::geometry::larger(window.top, screen.top),
            crate::geometry::smaller(window.bottom, screen.bottom),
            0,
        );
        assert(a == 0 || b == 0);
        assert(a * b == 0) by (nonlinear_arith)
            requires
                a == 0 || b == 0,
        ;
    }
}

proof fn lemma_shared_is_part(window: Rect, screen: Rect)
    ensures
        crate::geometry::shared_area(window, screen) <= crate::geometry::full_area(window),
{
    let a = crate::geometry::span(
        crate::geometry::larger(window.left, screen.left),
        crate::geometry::smaller(window.right, screen.right),
        0,
    );
    let b = crate::geometry::span(
        crate::geometry::larger(window.top, screen.top),
        crate::geometry::smaller(window.bottom, screen.bottom),
        0,
    );
    let c = crate::geometry::span(window.left as int, window.right as int, 1);
    let d = crate::geometry::span(window.top as int, window.bottom as int, 1);
    assert(a * b <= c * d) by (nonlinear_arith)
        requires
            a <= c,
            b <= d,
    ;
}

/// A window is barely visible below 18 percent of its area and clearly visible above.
pub proof fn law_visibility_is_eighteen_percent(
    window: Rect,
    screen: Rect,
    area: (u64, u64),
    barely: bool,
    clearly: bool,
)
    requires
        call_ensures(visibility_ratio_on_monitor, (&window, &screen), area),
        call_ensures(is_barely_visible, (&window, &screen), barely),
        call_ensures(is_clearly_visible, (&window, &screen), clearly),
        area.1 < 0x2_0000_0000_0000,
    ensures
        barely <==> 50 * area.0 < 9 * area.1,
        clearly <==> 50 * area.0 > 9 * area.1,
{
    lemma_shared_is_part(window, screen);
    crate::geometry::lemma_share_is_exact(
        crate::geometry::shared_area(window, screen),
        crate::geometry::full_area(window),
    );
}

/// Flags are dropped exactly where the window is remembered as tucked away but docked to no
/// edge or clearly visible; else they stay.
pub proof fn law_stale_flags_are_dropped(
    flags: &mut EdgeFlags,
    window: Rect,
    screen: Rect,
    clearly: bool,
    res: (),
)
    requires
        call_ensures(reconcile_stale_edge_hide, (flags, &window, &screen), res),
        call_ensures(is_clearly_visible, (&window, &screen), clearly),
    ensures
        old(flags).hidden && (old(flags).dock == 0 || clearly) ==> *final(flags) == (EdgeFlags {
            hidden: false,
            dock: 0,
        }),
        !old(flags).hidden || (old(flags).dock != 0 && !clearly) ==> *final(flags) == *old(flags),
{
}

/// A window counts as tucked away where it is remembered so; else, on macOS, where it is
/// barely visible, and elsewhere, where it is at an edge.
pub proof fn law_tucked_by_flags_or_place(
    platform: Platform,
    flags: EdgeFlags,
    geometry: Option<WindowGeometry>,
    window: Rect,
    screen: Rect,
    barely: bool,
    edge: i32,
    res: bool,
)
    requires
        call_ensures(is_window_edge_tucked, (platform, flags, geometry), res),
        geometry matches Some(g) ==> ordinary(g.window) && ordinary(g.monitor) && call_ensures(
            Placement::rect,
            (&g.window,),
            window,
        ) && call_ensures(Placement::rect, (&g.monitor,), screen) && call_ensures(
            is_barely_visible,
            (&window, &screen),
            barely,
        ) && call_ensures(
            infer_edge_dock_from_geometry,
            (window.left, window.top, window.right, screen.left, screen.top, screen.right),
            edge,
        ),
    ensures
        flags.hidden || flags.dock != 0 ==> res,
        !flags.hidden && flags.dock == 0 && geometry is None ==> !res,
        !flags.hidden && flags.dock == 0 && geometry is Some && platform is MacOs ==> res == barely,
        !flags.hidden && flags.dock == 0 && geometry is Some && !(platform is MacOs) ==> (res
            <==> edge != 0),
{
    if let Some(g) = geometry {
        assert(crate::edge_dock::rect_of(g.window) == window);
        assert(crate::edge_dock::rect_of(g.monitor) == screen);
    }
}

/// A placement of ordinary size has its edges where its corner and size put them; the two
/// ways to its rectangle agree there, and elsewhere the far edges stop at the largest
/// coordinate.
pub proof fn law_placements_have_edges(
    p: Placement,
    fits: bool,
    exact: Rect,
    stopped: Rect,
    right: i32,
)
    requires
        call_ensures(Placement::has_edges, (&p,), fits),
        call_ensures(Placement::rect, (&p,), exact),
        call_ensures(Placement::rect_saturating, (&p,), stopped),
        call_ensures(Placement::right, (&p,), right),
        p.width <= i32::MAX,
        p.height <= i32::MAX,
    ensures
        fits <==> ordinary(p),
        exact.left == p.x && exact.top == p.y,
        exact.right - p.x == p.width && exact.bottom - p.y == p.height && right == exact.right,
        stopped.left == p.x && stopped.top == p.y,
        p.x + p.width <= i32::MAX ==> stopped.right - p.x == p.width,
        p.x + p.width > i32::MAX ==> stopped.right == i32::MAX,
        p.y + p.height <= i32::MAX ==> stopped.bottom - p.y == p.height,
        p.y + p.height > i32::MAX ==> stopped.bottom == i32::MAX,
{
}

/// A length is a signed coordinate; one beyond the largest wraps around.
pub proof fn law_long_lengths_wrap(length: u32, res: i32)
    requires
        call_ensures(signed_extent, (length,), res),
    ensures
        length <= i32::MAX ==> res == length,
        length > i32::MAX ==> res + 0x1_0000_0000 == length,
{
}

/// The monitor lets go of a tucked window exactly where docking is off, looks at the window
/// exactly where docking is on and it is not minimized, and else does nothing.
pub proof fn law_first_look_follows_the_setting(
    docking: Option<bool>,
    hidden: bool,
    has_window: bool,
    minimized: bool,
    res: Look,
)
    requires
        call_ensures(first_look, (docking, hidden, has_window, minimized), res),
    ensures
        res is Release <==> docking == Some(false) && hidden && has_window,
        res is Inspect <==> docking == Some(true) && has_window && !minimized,
        docking is None || !has_window ==> res is Skip,
{
}

/// Flags are reconciled but on Windows, and after a docked start not before nine tenths of
/// a second have passed.
pub proof fn law_reconciling_waits_after_a_docked_start(
    platform: Platform,
    hidden: bool,
    elapsed_ms: u64,
    grace: u64,
    waits: bool,
    res: bool,
)
    requires
        call_ensures(startup_grace_ms, (hidden,), grace),
        call_ensures(in_grace, (elapsed_ms, grace), waits),
        call_ensures(reconciles, (platform, waits), res),
    ensures
        res <==> !(platform is Windows) && (hidden ==> elapsed_ms >= 900),
        crate::edge_dock::LOOK_EVERY_MS == 150,
{
}

} // verus!
