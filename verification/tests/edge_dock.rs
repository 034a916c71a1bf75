use tiez_shell::edge_dock::{
    apply_dock_position_on_main, dock_step, dock_token_for, expand_from_edge_dock, first_look,
    has_dock_position, has_expanded_position, has_released_position, in_grace,
    infer_edge_dock_from_geometry, is_window_edge_tucked, parse_dock_token, persist_edge_dock,
    reconcile_stale_edge_hide, reconciles, release_when_disabled, restore_pin_state_after_edge_expand,
    restore_pin_state_after_undock, startup_grace_ms, DockObservation, Look,
};
use tiez_shell::geometry::{Placement, Rect, WindowGeometry};
use tiez_shell::plan::{EdgeFlags, WindowAction};
use tiez_shell::platform::Platform;
use tiez_shell::settings_store::Stored;

const FREE: EdgeFlags = EdgeFlags { hidden: false, dock: 0 };
const SCREEN: Placement = Placement { x: 0, y: 25, width: 1440, height: 875 };

fn at(x: i32, y: i32) -> Option<WindowGeometry> {
    Some(WindowGeometry { window: Placement { x, y, width: 400, height: 600 }, monitor: SCREEN })
}

fn seen(x: i32, y: i32) -> DockObservation {
    DockObservation {
        window: Rect { left: x, top: y, right: x + 400, bottom: y + 600 },
        screen: Rect { left: 0, top: 25, right: 1440, bottom: 900 },
        cursor_x: 1200,
        cursor_y: 800,
        visible: true,
        flags: FREE,
        still_hidden: false,
        pinned: false,
        navigation: false,
        now_ms: 10_000,
        last_show_ms: 0,
        button_down: false,
    }
}

#[test]
fn tokens_name_edges_in_any_case() {
    assert_eq!(parse_dock_token("top"), 1);
    assert_eq!(parse_dock_token("  Left\n"), 2);
    assert_eq!(parse_dock_token("RIGHT"), 3);
    assert_eq!(parse_dock_token("none"), 0);
    assert_eq!(parse_dock_token("bottom"), 0);
    assert_eq!(parse_dock_token(""), 0);
    for dock in 0..4 {
        assert_eq!(parse_dock_token(dock_token_for(dock)), dock);
    }
    assert_eq!(dock_token_for(7), "none");
    assert_eq!(dock_token_for(-1), "none");
}

#[test]
fn only_macos_stores_the_edge() {
    let write = persist_edge_dock(Platform::MacOs, 3).unwrap();
    assert_eq!((write.key.as_str(), write.value.as_str()), ("app.last_edge_dock", "right"));
    assert!(persist_edge_dock(Platform::Windows, 3).is_none());
    assert!(persist_edge_dock(Platform::Other, 1).is_none());
}

#[test]
fn the_top_edge_comes_first() {
    assert_eq!(infer_edge_dock_from_geometry(0, 30, 400, 0, 25, 1440), 1);
    assert_eq!(infer_edge_dock_from_geometry(5, 31, 405, 0, 25, 1440), 2);
    assert_eq!(infer_edge_dock_from_geometry(6, 31, 1435, 0, 25, 1440), 3);
    assert_eq!(infer_edge_dock_from_geometry(6, 31, 1434, 0, 25, 1440), 0);
    assert_eq!(
        infer_edge_dock_from_geometry(i32::MAX, i32::MAX, i32::MIN, i32::MAX, i32::MAX, i32::MIN),
        1
    );
}

#[test]
fn a_docked_start_moves_the_window_off_screen() {
    assert_eq!(
        apply_dock_position_on_main(at(100, 200), 1),
        Some(WindowAction::MoveTo { x: 100, y: -572 })
    );
    assert_eq!(
        apply_dock_position_on_main(at(100, 200), 2),
        Some(WindowAction::MoveTo { x: -397, y: 200 })
    );
    assert_eq!(
        apply_dock_position_on_main(at(100, 200), 3),
        Some(WindowAction::MoveTo { x: 1437, y: 200 })
    );
    assert_eq!(apply_dock_position_on_main(at(100, 200), 0), None);
    assert_eq!(apply_dock_position_on_main(None, 1), None);
}

#[test]
fn tucked_by_flags_or_geometry() {
    let hidden = EdgeFlags { hidden: true, dock: 0 };
    assert!(is_window_edge_tucked(Platform::MacOs, hidden, None));
    assert!(is_window_edge_tucked(Platform::MacOs, EdgeFlags { hidden: false, dock: 2 }, None));
    assert!(!is_window_edge_tucked(Platform::MacOs, FREE, None));
    assert!(!is_window_edge_tucked(Platform::MacOs, FREE, at(0, 25)));
    assert!(is_window_edge_tucked(Platform::MacOs, FREE, at(-397, 200)));
    assert!(is_window_edge_tucked(Platform::Windows, FREE, at(0, 25)));
    assert!(!is_window_edge_tucked(Platform::Windows, FREE, at(300, 100)));
}

#[test]
fn pulling_back_shows_the_window_and_forgets_the_edge() {
    let plan = expand_from_edge_dock(3, at(1437, 200)).unwrap();
    assert_eq!(
        plan,
        vec![
            WindowAction::MoveTo { x: 1040, y: 200 },
            WindowAction::Show,
            WindowAction::SetHidden(false),
            WindowAction::SetDock(0),
            WindowAction::PersistDock(0),
            WindowAction::RestorePin,
            WindowAction::MarkShown,
            WindowAction::SetNavigation(true),
        ]
    );
    let plan = expand_from_edge_dock(0, at(50, -572)).unwrap();
    assert_eq!(plan[0], WindowAction::MoveTo { x: 50, y: 25 });
    let plan = expand_from_edge_dock(2, at(-397, 300)).unwrap();
    assert_eq!(plan[0], WindowAction::MoveTo { x: 0, y: 300 });
    assert!(expand_from_edge_dock(0, at(300, 200)).is_none());
    assert!(expand_from_edge_dock(9, at(300, 200)).is_none());
    assert!(expand_from_edge_dock(1, None).is_none());
}

#[test]
fn the_pin_follows_what_is_stored() {
    let yes = Some(Stored::Value("true".to_string()));
    let no = Some(Stored::Value("no".to_string()));
    assert_eq!(
        restore_pin_state_after_edge_expand(Platform::MacOs, false, &yes),
        vec![
            WindowAction::SetPinned(true),
            WindowAction::AlwaysOnTop(true),
            WindowAction::Focusable(false),
            WindowAction::AnnouncePinned(true),
        ]
    );
    assert_eq!(
        restore_pin_state_after_edge_expand(Platform::Windows, true, &no),
        vec![
            WindowAction::SetPinned(false),
            WindowAction::AlwaysOnTop(false),
            WindowAction::AnnouncePinned(false),
        ]
    );
    for stored in [None, Some(Stored::Unreadable)] {
        assert_eq!(
            restore_pin_state_after_edge_expand(Platform::MacOs, true, &stored),
            vec![WindowAction::SetPinned(true), WindowAction::AlwaysOnTop(true)]
        );
    }
    assert_eq!(
        restore_pin_state_after_edge_expand(Platform::MacOs, false, &Some(Stored::Missing)),
        vec![WindowAction::SetPinned(false), WindowAction::AlwaysOnTop(false)]
    );
    assert_eq!(
        restore_pin_state_after_undock(true, &Some(Stored::Missing)),
        vec![
            WindowAction::SetPinned(false),
            WindowAction::AlwaysOnTop(false),
            WindowAction::Focusable(true),
            WindowAction::AnnouncePinned(false),
        ]
    );
    assert_eq!(restore_pin_state_after_undock(true, &yes), vec![WindowAction::SetPinned(true)]);
}

#[test]
fn switching_docking_off_brings_the_window_back() {
    let tucked = EdgeFlags { hidden: true, dock: 2 };
    assert_eq!(
        release_when_disabled(Platform::MacOs, tucked, at(-397, 200)),
        vec![
            WindowAction::MoveTo { x: 0, y: 200 },
            WindowAction::Show,
            WindowAction::SetHidden(false),
            WindowAction::SetDock(0),
            WindowAction::PersistDock(0),
        ]
    );
    assert_eq!(
        release_when_disabled(Platform::Windows, tucked, at(-397, 200)),
        vec![WindowAction::Show, WindowAction::SetHidden(false), WindowAction::SetDock(0)]
    );
    assert!(release_when_disabled(Platform::MacOs, FREE, at(-397, 200)).is_empty());
}

#[test]
fn stale_flags_are_dropped() {
    let screen = Rect { left: 0, top: 0, right: 1000, bottom: 1000 };
    let window = Rect { left: 100, top: 100, right: 500, bottom: 700 };
    let strip = Rect { left: -397, top: 100, right: 3, bottom: 700 };

    let mut flags = EdgeFlags { hidden: true, dock: 2 };
    reconcile_stale_edge_hide(&mut flags, &strip, &screen);
    assert_eq!(flags, EdgeFlags { hidden: true, dock: 2 });
    reconcile_stale_edge_hide(&mut flags, &window, &screen);
    assert_eq!(flags, FREE);

    let narrow = |width: i32| Rect { left: 3 - width, top: 100, right: 3, bottom: 700 };
    let mut flags = EdgeFlags { hidden: true, dock: 2 };
    reconcile_stale_edge_hide(&mut flags, &narrow(17), &screen);
    assert_eq!(flags, EdgeFlags { hidden: true, dock: 2 });
    reconcile_stale_edge_hide(&mut flags, &narrow(16), &screen);
    assert_eq!(flags, FREE);

    let mut flags = EdgeFlags { hidden: true, dock: 0 };
    reconcile_stale_edge_hide(&mut flags, &strip, &screen);
    assert_eq!(flags, FREE);

    let mut flags = EdgeFlags { hidden: false, dock: 3 };
    reconcile_stale_edge_hide(&mut flags, &window, &screen);
    assert_eq!(flags, EdgeFlags { hidden: false, dock: 3 });
}

#[test]
fn the_first_look_depends_on_the_setting() {
    assert_eq!(first_look(None, true, true, false), Look::Skip);
    assert_eq!(first_look(Some(false), true, true, true), Look::Release);
    assert_eq!(first_look(Some(false), false, true, false), Look::Skip);
    assert_eq!(first_look(Some(false), true, false, false), Look::Skip);
    assert_eq!(first_look(Some(true), false, true, false), Look::Inspect);
    assert_eq!(first_look(Some(true), false, true, true), Look::Skip);
    assert!(in_grace(899, startup_grace_ms(true)));
    assert!(!in_grace(900, startup_grace_ms(true)));
    assert!(!in_grace(0, startup_grace_ms(false)));
    assert!(reconciles(Platform::MacOs, false));
    assert!(!reconciles(Platform::MacOs, true));
    assert!(!reconciles(Platform::Windows, false));
    assert_eq!(startup_grace_ms(true), 900);
    assert_eq!(startup_grace_ms(false), 0);
}

#[test]
fn a_window_at_an_edge_is_tucked_away() {
    let look = seen(500, 28);
    assert!(look.has_room(Platform::MacOs));
    assert_eq!(
        dock_step(Platform::MacOs, &look),
        vec![
            WindowAction::AlwaysOnTop(true),
            WindowAction::MoveTo { x: 500, y: -572 },
            WindowAction::SetDock(1),
            WindowAction::SetHidden(true),
            WindowAction::PersistDock(1),
        ]
    );
    assert_eq!(
        dock_step(Platform::Windows, &DockObservation { pinned: true, ..seen(3, 100) }),
        vec![
            WindowAction::MoveTo { x: -397, y: 100 },
            WindowAction::SetDock(2),
            WindowAction::SetHidden(true),
        ]
    );
    assert_eq!(
        dock_step(
            Platform::Windows,
            &DockObservation { cursor_x: 20, cursor_y: 20, ..seen(1036, 100) }
        ),
        vec![
            WindowAction::AlwaysOnTop(true),
            WindowAction::NoActivate(true),
            WindowAction::MoveTo { x: 1437, y: 100 },
            WindowAction::SetDock(3),
            WindowAction::SetHidden(true),
        ]
    );
}

#[test]
fn a_window_in_use_stays() {
    let top = seen(500, 28);
    let still = [
        DockObservation { cursor_x: 600, cursor_y: 100, ..top },
        DockObservation { visible: false, ..top },
        DockObservation { last_show_ms: 9_600, ..top },
        DockObservation { last_show_ms: 9_300, navigation: true, ..top },
        DockObservation { last_show_ms: 20_000, ..top },
        seen(300, 200),
        seen(300, 800),
    ];
    for look in still {
        assert!(dock_step(Platform::MacOs, &look).is_empty());
    }
    let dragging = DockObservation { button_down: true, ..top };
    assert!(dock_step(Platform::Windows, &dragging).is_empty());
    assert!(!dock_step(Platform::MacOs, &dragging).is_empty());
}

#[test]
fn the_pointer_at_the_strip_reveals_a_tucked_window() {
    let tucked = DockObservation {
        flags: EdgeFlags { hidden: true, dock: 1 },
        still_hidden: true,
        last_show_ms: 9_999,
        ..seen(500, -572)
    };
    assert!(dock_step(Platform::MacOs, &tucked).is_empty());
    let beside = DockObservation { cursor_x: 499, cursor_y: 26, ..tucked };
    assert!(dock_step(Platform::MacOs, &beside).is_empty());
    let over = DockObservation { cursor_x: 500, cursor_y: 30, ..tucked };
    assert_eq!(dock_step(Platform::MacOs, &over), vec![WindowAction::ExpandFromEdge]);
    assert_eq!(dock_step(Platform::Windows, &over), vec![WindowAction::ExpandFromEdge]);
    let left = DockObservation {
        flags: EdgeFlags { hidden: true, dock: 2 },
        cursor_x: 5,
        cursor_y: 100,
        ..seen(-397, 100)
    };
    assert_eq!(dock_step(Platform::MacOs, &left), vec![WindowAction::ExpandFromEdge]);
    let right = DockObservation {
        flags: EdgeFlags { hidden: true, dock: 3 },
        cursor_x: 1435,
        cursor_y: 701,
        ..seen(1437, 100)
    };
    assert!(dock_step(Platform::MacOs, &right).is_empty());
}

#[test]
fn a_window_that_left_its_edge_is_forgotten() {
    let moved = DockObservation { still_hidden: true, pinned: true, ..seen(300, 200) };
    assert_eq!(
        dock_step(Platform::MacOs, &moved),
        vec![
            WindowAction::SetHidden(false),
            WindowAction::SetDock(0),
            WindowAction::PersistDock(0),
            WindowAction::RestorePinUndocked,
        ]
    );
    assert_eq!(
        dock_step(Platform::Windows, &moved),
        vec![
            WindowAction::SetHidden(false),
            WindowAction::SetDock(0),
            WindowAction::AlwaysOnTop(true),
            WindowAction::NoActivate(true),
        ]
    );
    let elsewhere = DockObservation { still_hidden: true, ..seen(300, 2000) };
    assert_eq!(
        dock_step(Platform::MacOs, &elsewhere),
        vec![
            WindowAction::SetHidden(false),
            WindowAction::SetDock(0),
            WindowAction::PersistDock(0),
        ]
    );
}

#[test]
fn positions_beyond_the_coordinates_are_told_apart() {
    let far = |x: i32, y: i32, screen_x: i32| {
        Some(WindowGeometry {
            window: Placement { x, y, width: 400, height: 600 },
            monitor: Placement { x: screen_x, y: i32::MIN, width: 1440, height: 875 },
        })
    };
    assert!(!has_dock_position(far(0, 0, 0), 1));
    assert!(has_dock_position(far(0, 0, 0), 2));
    assert!(!has_dock_position(far(0, 0, i32::MIN), 2));
    assert!(!has_dock_position(far(0, 0, i32::MAX), 3));
    assert!(has_dock_position(far(0, 0, i32::MAX), 0));
    assert!(has_dock_position(None, 1));
    assert!(has_dock_position(at(10, 10), 3));

    assert!(has_expanded_position(3, at(1437, 200)));
    assert!(has_expanded_position(1, None));
    assert!(!has_expanded_position(1, far(i32::MAX, 0, 0)));
    assert!(!has_expanded_position(1, far(0, 0, i32::MAX)));

    let tucked = EdgeFlags { hidden: true, dock: 3 };
    assert!(has_released_position(Platform::MacOs, tucked, at(1437, 200)));
    assert!(!has_released_position(Platform::MacOs, tucked, far(0, 0, i32::MAX)));
    assert!(has_released_position(Platform::Windows, tucked, far(0, 0, i32::MAX)));
    assert!(has_released_position(Platform::MacOs, FREE, far(0, 0, i32::MAX)));
}
