use tiez_shell::plan::{EdgeFlags, WindowAction};
use tiez_shell::platform::Platform;
use tiez_shell::settings_store::{Stored, StoredSettings};
use tiez_shell::startup_settings::load_settings;
use tiez_shell::window_events::{
    blur_at, handle_blur, handle_window_event, persist_window_size, settle_blur, BlurCheck,
    BlurObservation, SizeKeeper, WindowEvent,
};

#[test]
fn only_the_main_window_has_events() {
    let events = [
        WindowEvent::Focused(false),
        WindowEvent::Resized { width: 800, height: 600 },
        WindowEvent::CloseRequested,
        WindowEvent::Other,
    ];
    for event in events {
        assert!(handle_window_event(Platform::MacOs, "settings", event, false, false).is_empty());
    }
    assert!(handle_window_event(Platform::MacOs, "main", WindowEvent::Other, false, false).is_empty());
}

#[test]
fn focus_is_remembered() {
    assert_eq!(
        handle_window_event(Platform::Windows, "main", WindowEvent::Focused(true), false, false),
        vec![WindowAction::SetFocused(true)]
    );
    assert_eq!(
        handle_window_event(Platform::Windows, "main", WindowEvent::Focused(false), false, false),
        vec![WindowAction::SetFocused(false), WindowAction::CheckBlur]
    );
}

#[test]
fn a_size_counts_unless_the_window_is_minimized_or_maximized() {
    let event = WindowEvent::Resized { width: 800, height: 600 };
    let kept = vec![WindowAction::PersistSize { width: 800, height: 600 }];
    assert_eq!(handle_window_event(Platform::Windows, "main", event, false, false), kept);
    assert!(handle_window_event(Platform::Windows, "main", event, true, false).is_empty());
    assert!(handle_window_event(Platform::Windows, "main", event, false, true).is_empty());
    assert_eq!(handle_window_event(Platform::MacOs, "main", event, false, true), kept);
    assert!(handle_window_event(Platform::MacOs, "main", event, true, true).is_empty());
}

#[test]
fn closing_hides_the_window() {
    let plan =
        handle_window_event(Platform::Windows, "main", WindowEvent::CloseRequested, false, false);
    assert_eq!(
        plan,
        vec![
            WindowAction::PreventClose,
            WindowAction::HidePreview,
            WindowAction::ClearVibrancy,
            WindowAction::Hide,
            WindowAction::SetHidden(false),
            WindowAction::SetDock(0),
            WindowAction::SetNavigation(false),
            WindowAction::SetNavigationMode(false),
        ]
    );
    let plan =
        handle_window_event(Platform::MacOs, "main", WindowEvent::CloseRequested, false, false);
    assert_eq!(plan[3], WindowAction::HidePanel);
}

#[test]
fn the_last_size_is_stored_once_the_window_keeps_it() {
    let mut keeper = SizeKeeper::new();
    assert!(!keeper.resize_at(199, 600, 900));
    assert!(!keeper.resize_at(600, 199, 900));
    assert!(!keeper.pending);
    assert!(keeper.resize_at(800, 600, 1000));
    assert!(!keeper.resize_at(810, 610, 1100));
    assert!(!keeper.resize_at(10, 10, 1150));
    assert!(keeper.save_at(1299).is_none());
    assert!(keeper.save_at(0).is_none());
    let writes = keeper.save_at(1300).unwrap();
    let pairs: Vec<(&str, &str)> =
        writes.iter().map(|w| (w.key.as_str(), w.value.as_str())).collect();
    assert_eq!(pairs, vec![("app.window_width", "810"), ("app.window_height", "610")]);
    assert!(keeper.pending);
    keeper.saved();
    assert!(keeper.resize_at(200, 200, 2000));
}

#[test]
fn a_stored_size_is_the_next_one_to_start_with() {
    let mut keeper = SizeKeeper::new();
    assert!(keeper.resize_at(1280, 4_000_000_000, 5));
    let mut stored = StoredSettings::new();
    for write in keeper.save_at(1000).unwrap() {
        stored.add(&write.key, Stored::Value(write.value.clone()));
    }
    let settings = load_settings(&stored, None);
    assert_eq!(settings.window_width, Some(1280));
    assert_eq!(settings.window_height, Some(4_000_000_000));
}

#[test]
fn the_clock_dates_a_resize() {
    let mut keeper = SizeKeeper::new();
    assert!(persist_window_size(&mut keeper, 640, 480));
    assert!(keeper.last_event_ms > 1_600_000_000_000);
    assert_eq!((keeper.width, keeper.height), (640, 480));
    keeper.last_event_ms = 0;
    assert!(keeper.save().is_some());
    keeper.last_event_ms = u64::MAX;
    assert!(keeper.save().is_none());
}

#[test]
fn losing_the_focus_may_hide_the_window_on_windows() {
    let seen =
        BlurObservation { ignored: false, pinned: false, last_show_ms: 1000, mouse_down: false };
    assert!(blur_at(Platform::Windows, &seen, 1500));
    assert!(!blur_at(Platform::Windows, &seen, 1499));
    assert!(!blur_at(Platform::Windows, &seen, 10));
    assert!(!blur_at(Platform::MacOs, &seen, 1500));
    assert!(!blur_at(Platform::Other, &seen, 1500));
    let not = [
        BlurObservation { ignored: true, ..seen },
        BlurObservation { pinned: true, ..seen },
        BlurObservation { mouse_down: true, ..seen },
    ];
    for observation in not {
        assert!(!blur_at(Platform::Windows, &observation, 9999));
        assert!(!handle_blur(Platform::Windows, &observation));
    }
    assert!(handle_blur(Platform::Windows, &seen));
    assert!(!handle_blur(Platform::Windows, &BlurObservation { last_show_ms: u64::MAX, ..seen }));
}

#[test]
fn a_moment_later_the_window_is_hidden_unless_it_is_wanted() {
    let seen = BlurCheck {
        mouse_down: false,
        flags: EdgeFlags { hidden: false, dock: 0 },
        focused: Some(false),
        ignored: false,
        pinned: false,
    };
    assert_eq!(
        settle_blur(&seen),
        vec![
            WindowAction::HidePreview,
            WindowAction::ClearVibrancy,
            WindowAction::Hide,
            WindowAction::SetNavigation(false),
            WindowAction::ReleaseModifiers,
            WindowAction::RestorePreviousFocus,
        ]
    );
    let kept = [
        BlurCheck { mouse_down: true, ..seen },
        BlurCheck { flags: EdgeFlags { hidden: true, dock: 0 }, ..seen },
        BlurCheck { flags: EdgeFlags { hidden: false, dock: 1 }, ..seen },
        BlurCheck { focused: Some(true), ..seen },
        BlurCheck { focused: None, ..seen },
        BlurCheck { ignored: true, ..seen },
        BlurCheck { pinned: true, ..seen },
    ];
    for check in kept {
        assert!(settle_blur(&check).is_empty());
    }
}
