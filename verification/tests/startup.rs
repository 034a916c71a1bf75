use tiez_shell::plan::WindowAction;
use tiez_shell::platform::Platform;
use tiez_shell::settings_store::{SettingWrite, Stored, StoredSettings};
use tiez_shell::startup::{
    apply_initial_dock_visibility, apply_initial_theme, init, is_leftover, redirect_target,
    resolve_data_dir, setup_main_window, setup_state, setup_tray, space_retry_delays,
    start_services, tray_click_action, tray_menu_action, DataDir, InitStep, ServiceStep, TrayAction,
    TrayLook,
};
use tiez_shell::startup_settings::{
    apply_startup_resets, load_settings, startup_keys, startup_writes, StartupSettings,
};

fn store(values: &[(&str, &str)]) -> StoredSettings {
    let mut stored = StoredSettings::new();
    for (key, value) in values {
        stored.add(key, Stored::Value(value.to_string()));
    }
    stored
}

fn pairs(writes: &[SettingWrite]) -> Vec<(String, String)> {
    writes.iter().map(|w| (w.key.clone(), w.value.clone())).collect()
}

fn text_pairs(list: &[(&str, &str)]) -> Vec<(String, String)> {
    list.iter().map(|(k, v)| (k.to_string(), v.to_string())).collect()
}

fn loaded(values: &[(&str, &str)]) -> StartupSettings {
    load_settings(&store(values), None)
}

fn texts(list: &[&str]) -> Vec<String> {
    list.iter().map(|t| t.to_string()).collect()
}

#[test]
fn an_empty_store_gives_the_defaults() {
    let s = loaded(&[]);
    assert_eq!(s.theme, "mica");
    assert!(s.persistent && s.capture_files && s.deduplicate && s.silent_start);
    assert!(s.privacy_protection && s.paste_sound_enabled && s.follow_mouse);
    assert!(!s.capture_rich_text && !s.rich_text_snapshot_preview && !s.auto_copy_file);
    assert!(!s.delete_after_paste && !s.sequential_mode && !s.sound_enabled);
    assert!(!s.hide_tray_icon && !s.hide_dock_icon && !s.edge_docking && !s.window_pinned);
    assert!(!s.arrow_key_selection && !s.auto_close_server);
    assert_eq!(s.privacy_kinds, "phone,idcard,email,secret");
    assert_eq!(s.privacy_custom, "");
    assert_eq!(s.cleanup_rules, "");
    assert_eq!(s.app_cleanup_policies, "[]");
    assert_eq!(s.sequential_hotkey, "Alt+V");
    assert_eq!(s.rich_paste_hotkey, "Alt+Shift+V");
    assert_eq!(s.search_hotkey, "Alt+F");
    assert_eq!(s.quick_paste_modifier, "disabled");
    assert_eq!(s.last_edge_dock, "none");
    assert_eq!(s.main_hotkey, "Alt+C");
    assert_eq!((s.window_width, s.window_height), (None, None));
    assert_eq!(s.sound_volume, 1.0f64.to_bits());
}

#[test]
fn an_unreadable_store_gives_the_same_defaults() {
    let mut stored = StoredSettings::new();
    for key in ["app.theme", "app.persistent", "app.window_width", "app.hotkey", "app.edge_docking"] {
        stored.add(key, Stored::Unreadable);
    }
    let s = load_settings(&stored, None);
    assert_eq!(s.theme, "mica");
    assert!(s.persistent);
    assert_eq!(s.window_width, None);
    assert_eq!(s.main_hotkey, "Alt+C");
    assert!(!s.edge_docking);
}

#[test]
fn stored_values_are_read_under_their_keys() {
    let s = loaded(&[
        ("app.theme", "dark"),
        ("app.persistent", "false"),
        ("app.capture_rich_text", "true"),
        ("app.silent_start", "True"),
        ("file_transfer_auto_copy", "true"),
        ("file_transfer_auto_close", "true"),
        ("app.sound_paste_enabled", "false"),
        ("app.window_width", "800"),
        ("app.window_height", "+600"),
        ("app.hotkey", "Ctrl+Space"),
        ("app.last_edge_dock", "left"),
    ]);
    assert_eq!(s.theme, "dark");
    assert!(!s.persistent);
    assert!(s.capture_rich_text);
    assert!(!s.silent_start);
    assert!(s.auto_copy_file);
    assert!(s.auto_close_server);
    assert!(!s.paste_sound_enabled);
    assert_eq!((s.window_width, s.window_height), (Some(800), Some(600)));
    assert_eq!(s.main_hotkey, "Ctrl+Space");
    assert_eq!(s.last_edge_dock, "left");
    assert_eq!(loaded(&[("app.window_width", "8 00")]).window_width, None);
    assert_eq!(loaded(&[("app.window_width", "4294967296")]).window_width, None);
}

#[test]
fn the_stored_volume_becomes_a_fraction() {
    let stored = store(&[]);
    let volume = |raw: f64| f64::from_bits(load_settings(&stored, Some(raw.to_bits())).sound_volume);
    assert_eq!(volume(0.25), 0.25);
    assert_eq!(volume(40.0), 0.4);
    assert_eq!(volume(f64::NAN), 1.0);
}

#[test]
fn the_first_entry_of_a_key_counts() {
    let mut stored = StoredSettings::new();
    stored.add("app.theme", Stored::Value("a".to_string()));
    stored.add("app.theme", Stored::Value("b".to_string()));
    assert_eq!(load_settings(&stored, None).theme, "a");
}

#[test]
fn earlier_default_hotkeys_become_the_present_ones() {
    let stored = store(&[
        ("app.hotkey", " command+SHIFT+c "),
        ("app.sequential_hotkey", "Command+Z"),
        ("app.rich_paste_hotkey", "Ctrl+Shift+Z"),
        ("app.search_hotkey", "COMMAND+ALT+F"),
    ]);
    assert_eq!(
        pairs(&apply_startup_resets(Platform::MacOs, &stored, false)),
        text_pairs(&[
            ("app.hotkey", "Alt+C"),
            ("app.sequential_hotkey", "Alt+V"),
            ("app.rich_paste_hotkey", "Alt+Shift+V"),
            ("app.search_hotkey", "Alt+F"),
        ])
    );
    let after = store(&[
        ("app.hotkey", "Alt+C"),
        ("app.sequential_hotkey", "Alt+V"),
        ("app.rich_paste_hotkey", "Alt+Shift+V"),
        ("app.search_hotkey", "Alt+F"),
    ]);
    assert!(apply_startup_resets(Platform::MacOs, &after, false).is_empty());
    assert!(apply_startup_resets(Platform::Windows, &stored, false).is_empty());
    assert!(apply_startup_resets(Platform::Other, &stored, false).is_empty());
}

#[test]
fn customized_hotkeys_are_preserved() {
    for hotkey in ["Ctrl+Space", "Win + V", "", "Command+Z", "Alt+C"] {
        let stored = store(&[("app.hotkey", hotkey)]);
        assert!(apply_startup_resets(Platform::MacOs, &stored, true).is_empty());
    }
    for hotkey in ["Win+V", "Command+V", "win+v"] {
        let stored = store(&[("app.hotkey", hotkey)]);
        assert_eq!(apply_startup_resets(Platform::MacOs, &stored, true).len(), 1);
    }
    let mut unreadable = StoredSettings::new();
    unreadable.add("app.hotkey", Stored::Unreadable);
    assert!(apply_startup_resets(Platform::MacOs, &unreadable, true).is_empty());
}

#[test]
fn game_mode_needs_administrator_rights() {
    let game = store(&[("app.paste_method", "game_mode")]);
    assert_eq!(
        pairs(&apply_startup_resets(Platform::Windows, &game, false)),
        text_pairs(&[("app.paste_method", "shift_insert")])
    );
    assert!(apply_startup_resets(Platform::Windows, &game, true).is_empty());
    assert!(apply_startup_resets(Platform::MacOs, &game, false).is_empty());
    assert!(apply_startup_resets(Platform::Windows, &store(&[]), false).is_empty());
}

#[test]
fn macos_starts_unpinned() {
    let stored = store(&[("app.window_pinned", "true"), ("app.hotkey", "Win+V")]);
    assert_eq!(
        pairs(&startup_writes(Platform::MacOs, &stored, false)),
        text_pairs(&[("app.hotkey", "Alt+C"), ("app.window_pinned", "false")])
    );
    assert!(startup_writes(Platform::Windows, &stored, false).is_empty());
}

#[test]
fn the_redirect_file_names_a_directory() {
    let content = |text: &str| Some(text.to_string());
    assert_eq!(redirect_target(&content(" /data/tiez \n")), content("/data/tiez"));
    assert_eq!(redirect_target(&content("   ")), None);
    assert_eq!(redirect_target(&content("/Applications/TieZ.APP")), None);
    assert_eq!(redirect_target(&None), None);

    let custom = content("/data/tiez\n");
    assert!(matches!(resolve_data_dir(&custom, true, false), DataDir::Custom(p) if p == "/data/tiez"));
    assert!(matches!(resolve_data_dir(&custom, false, false), DataDir::Default));
    assert!(matches!(resolve_data_dir(&custom, true, true), DataDir::Portable));
    assert!(matches!(resolve_data_dir(&None, true, false), DataDir::Default));
    assert!(matches!(resolve_data_dir(&content("x.app"), true, false), DataDir::Default));
}

#[test]
fn leftover_files_have_a_prefix() {
    assert!(is_leftover("TieZ_Clip_1.png"));
    assert!(is_leftover("TieZ_Clip_"));
    assert!(!is_leftover("TieZ_Clip"));
    assert!(!is_leftover("tiez_clip_1.png"));
}

#[test]
fn the_state_splits_lists() {
    let s = loaded(&[
        ("app.privacy_protection_kinds", "phone, email ,,x"),
        ("app.privacy_protection_custom_rules", " a \r\nb\n\n c\n"),
        ("app.hotkey", "Alt+X"),
        ("app.sequential_hotkey", "Alt+S"),
        ("file_transfer_auto_close", "true"),
    ]);
    let state = setup_state(&s);
    assert_eq!(state.privacy_protection_kinds, texts(&["phone", "email", "", "x"]));
    assert_eq!(state.privacy_protection_custom_rules, texts(&["a", "b", "", "c"]));
    assert_eq!(state.main_hotkey, "Alt+X");
    assert_eq!(state.sequential_paste_hotkey, "Alt+S");
    assert!(state.file_server_auto_close);
    let empty = setup_state(&loaded(&[("app.privacy_protection_kinds", "")]));
    assert_eq!(empty.privacy_protection_kinds, texts(&[""]));
    assert_eq!(empty.privacy_protection_custom_rules, Vec::<String>::new());
}

#[test]
fn only_macos_has_a_dock_icon() {
    let s = loaded(&[("app.hide_dock_icon", "true")]);
    assert_eq!(apply_initial_dock_visibility(Platform::MacOs, &s), Some(false));
    assert_eq!(apply_initial_dock_visibility(Platform::MacOs, &loaded(&[])), Some(true));
    assert_eq!(apply_initial_dock_visibility(Platform::Windows, &s), None);
}

#[test]
fn a_docked_window_starts_tucked_away() {
    let s = loaded(&[
        ("app.edge_docking", "true"),
        ("app.last_edge_dock", "right"),
        ("app.window_width", "500"),
        ("app.window_height", "240"),
    ]);
    assert_eq!(
        setup_main_window(Platform::MacOs, &s, true, &texts(&["tiez"])),
        vec![
            WindowAction::SetPinned(false),
            WindowAction::Resize { width: 500, height: 240 },
            WindowAction::AlwaysOnTop(false),
            WindowAction::JoinAllSpaces,
            WindowAction::Show,
            WindowAction::MakePanel,
            WindowAction::JoinAllSpaces,
            WindowAction::RepeatJoinAllSpaces,
            WindowAction::SetDock(3),
            WindowAction::SetHidden(true),
            WindowAction::AlwaysOnTop(true),
            WindowAction::DockPosition(3),
            WindowAction::RepeatDockPosition(3),
            WindowAction::OpenDevtools,
        ]
    );
    assert_eq!(space_retry_delays(), vec![50, 200, 600, 1200]);
}

#[test]
fn an_undocked_window_starts_with_the_focus() {
    let s = loaded(&[("app.last_edge_dock", "right"), ("app.window_width", "359"), ("app.window_height", "900")]);
    assert_eq!(
        setup_main_window(Platform::MacOs, &s, true, &texts(&["tiez"])),
        vec![
            WindowAction::SetPinned(false),
            WindowAction::AlwaysOnTop(false),
            WindowAction::JoinAllSpaces,
            WindowAction::Show,
            WindowAction::MakePanel,
            WindowAction::JoinAllSpaces,
            WindowAction::RepeatJoinAllSpaces,
            WindowAction::Focus,
            WindowAction::OpenDevtools,
        ]
    );
    assert_eq!(
        setup_main_window(Platform::Other, &s, true, &texts(&[])),
        vec![
            WindowAction::SetPinned(false),
            WindowAction::AlwaysOnTop(false),
            WindowAction::Focusable(true),
            WindowAction::Focusable(true),
            WindowAction::Show,
            WindowAction::Focus,
            WindowAction::OpenDevtools,
        ]
    );
}

#[test]
fn a_background_start_shows_no_window() {
    let s = loaded(&[("app.window_pinned", "true")]);
    for flag in ["--autostart", "--minimized"] {
        assert_eq!(
            setup_main_window(Platform::MacOs, &s, true, &texts(&["tiez", flag])),
            vec![
                WindowAction::SetPinned(true),
                WindowAction::AlwaysOnTop(true),
                WindowAction::JoinAllSpaces,
                WindowAction::MakePanel,
            ]
        );
    }
    assert_eq!(
        setup_main_window(Platform::Windows, &s, true, &texts(&["tiez"])),
        vec![
            WindowAction::SetPinned(true),
            WindowAction::AlwaysOnTop(true),
            WindowAction::Focusable(false),
        ]
    );
    let loud = loaded(&[("app.silent_start", "false")]);
    assert_eq!(
        setup_main_window(Platform::Windows, &loud, true, &texts(&["--minimize"])),
        vec![
            WindowAction::SetPinned(false),
            WindowAction::AlwaysOnTop(false),
            WindowAction::Focusable(true),
            WindowAction::Show,
            WindowAction::OpenDevtools,
        ]
    );
    assert_eq!(
        setup_main_window(Platform::Windows, &loud, false, &texts(&[])),
        vec![WindowAction::SetPinned(false)]
    );
}

#[test]
fn services_start_in_order() {
    let s = loaded(&[("app.sound_enabled", "true")]);
    let stored = store(&[("file_server_enabled", "true"), ("file_server_port", "8080")]);
    assert_eq!(
        start_services(Platform::MacOs, &s, &stored, false),
        vec![
            ServiceStep::TrackWindows,
            ServiceStep::WatchPasteKey,
            ServiceStep::WatchClipboard,
            ServiceStep::PreloadSounds(1.0f64.to_bits()),
            ServiceStep::StartMessageQueue,
            ServiceStep::StartCloudSync,
            ServiceStep::WatchEdges,
            ServiceStep::StartFileServer { port: Some(8080) },
            ServiceStep::RunAnalytics,
            ServiceStep::PublishHotkey,
            ServiceStep::RegisterHotkeys,
        ]
    );
    let quiet = loaded(&[]);
    let win_v = store(&[
        ("app.use_win_v_shortcut", "true"),
        ("file_server_enabled", "true"),
        ("file_server_port", "80800"),
    ]);
    assert_eq!(
        start_services(Platform::Windows, &quiet, &win_v, false),
        vec![
            ServiceStep::TrackWindows,
            ServiceStep::WatchClipboard,
            ServiceStep::StartMessageQueue,
            ServiceStep::StartCloudSync,
            ServiceStep::WatchEdges,
            ServiceStep::StartFileServer { port: None },
            ServiceStep::RunAnalytics,
            ServiceStep::PublishHotkey,
            ServiceStep::RegisterHotkeys,
            ServiceStep::TakeOverWinV,
        ]
    );
    assert!(!start_services(Platform::Windows, &quiet, &win_v, true)
        .contains(&ServiceStep::TakeOverWinV));
    assert_eq!(
        start_services(Platform::Other, &quiet, &store(&[]), false),
        vec![
            ServiceStep::WatchClipboard,
            ServiceStep::StartMessageQueue,
            ServiceStep::StartCloudSync,
            ServiceStep::RunAnalytics,
            ServiceStep::PublishHotkey,
            ServiceStep::RegisterHotkeys,
        ]
    );
}

#[test]
fn the_start_stores_resets_before_it_reads_settings() {
    let steps = init(Platform::MacOs, false);
    assert_eq!(steps[0], InitStep::WatchWake);
    let resets = steps.iter().position(|s| *s == InitStep::StoreResets).unwrap();
    let load = steps.iter().position(|s| *s == InitStep::LoadSettings).unwrap();
    assert!(resets < load);
    assert!(steps.contains(&InitStep::MigrateCiphertexts));
    assert_eq!(*steps.last().unwrap(), InitStep::ApplyTheme);
    let sounds = steps.iter().position(|s| *s == InitStep::SetSoundDir).unwrap();
    let services = steps.iter().position(|s| *s == InitStep::StartServices).unwrap();
    assert!(sounds < services);
    assert_eq!(steps.iter().filter(|s| **s == InitStep::SetSoundDir).count(), 1);
    assert!(!init(Platform::Other, false).contains(&InitStep::SetSoundDir));
    let windows = init(Platform::Windows, true);
    assert!(!windows.contains(&InitStep::MigrateCiphertexts));
    assert!(!windows.contains(&InitStep::SetSoundDir));
    assert_eq!(windows[0], InitStep::PublishHandle);
    assert_eq!(*windows.last().unwrap(), InitStep::WatchTaskbar);
}

#[test]
fn the_tray_shows_and_quits() {
    assert_eq!(tray_menu_action("show"), TrayAction::ShowWindow);
    assert_eq!(tray_menu_action("quit"), TrayAction::Quit);
    assert_eq!(tray_menu_action("Show"), TrayAction::Nothing);
    assert_eq!(tray_click_action(true), TrayAction::ShowWindow);
    assert_eq!(tray_click_action(false), TrayAction::Nothing);
    assert_eq!(setup_tray(Platform::MacOs, true), TrayLook { visible: false, template: true });
    assert_eq!(setup_tray(Platform::Windows, false), TrayLook { visible: true, template: false });
}

#[test]
fn the_theme_has_a_colour_mode_where_one_is_stored() {
    let value = |text: &str| Stored::Value(text.to_string());
    assert_eq!(
        apply_initial_theme(&value("dark"), &value("light")),
        ("dark".to_string(), Some("light".to_string()))
    );
    assert_eq!(
        apply_initial_theme(&Stored::Missing, &Stored::Missing),
        ("mica".to_string(), None)
    );
    assert_eq!(
        apply_initial_theme(&Stored::Unreadable, &Stored::Unreadable),
        ("mica".to_string(), Some("system".to_string()))
    );
}

#[test]
fn the_start_reads_its_own_keys_once_each() {
    let keys = startup_keys();
    assert_eq!(keys.len(), 37);
    for (i, key) in keys.iter().enumerate() {
        assert!(!keys[..i].contains(key));
    }
    for key in ["app.theme", "app.hotkey", "app.paste_method", "file_server_port"] {
        assert!(keys.contains(&key));
    }
    assert!(!keys.contains(&"app.color_mode"));
}

#[test]
fn added_values_stand_behind_the_earlier_ones() {
    let mut stored = StoredSettings::new();
    assert!(stored.entries.is_empty());
    stored.add("a", Stored::Missing);
    stored.add("b", Stored::Value("1".to_string()));
    assert_eq!(stored.entries.len(), 2);
    assert_eq!(stored.entries[1].key, "b");
    assert!(matches!(stored.get("b"), Stored::Value(text) if text == "1"));
    assert!(matches!(stored.get("c"), Stored::Missing));
}
