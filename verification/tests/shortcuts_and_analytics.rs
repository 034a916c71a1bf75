use tiez_shell::analytics::{analytics_on, init_analytics, AnonymousId};
use tiez_shell::settings_store::{Stored, StoredSettings};
use tiez_shell::shortcuts::{
    act_on_shortcut, handle_global_shortcut, ShortcutAction, ShortcutNumbers, ShortcutState,
};
use tiez_shell::startup::{setup_state, SettingsState};
use tiez_shell::startup_settings::load_settings;

fn number(text: &str) -> u32 {
    text.parse::<global_hotkey::hotkey::HotKey>().unwrap().id()
}

fn state_with(values: &[(&str, &str)]) -> SettingsState {
    let mut stored = StoredSettings::new();
    for (key, value) in values {
        stored.add(key, Stored::Value(value.to_string()));
    }
    setup_state(&load_settings(&stored, None))
}

#[test]
fn shortcuts_are_read_from_the_settings() {
    let state = state_with(&[("app.hotkey", "Win+V"), ("app.sequential_mode", "true")]);
    let press = |text: &str| handle_global_shortcut(ShortcutState::Pressed, number(text), &state, None);
    let release =
        |text: &str| handle_global_shortcut(ShortcutState::Released, number(text), &state, None);
    assert_eq!(press("Super+V"), vec![ShortcutAction::ToggleWindow]);
    assert_eq!(press("Cmd+KeyV"), vec![ShortcutAction::ToggleWindow]);
    assert!(press("Alt+V").is_empty());
    assert!(release("Super+V").is_empty());
    assert_eq!(release("Alt+V"), vec![ShortcutAction::PasteNext]);
    assert_eq!(release("Shift+Alt+V"), vec![ShortcutAction::PasteRich]);
    assert_eq!(release("Alt+F"), vec![ShortcutAction::FocusSearch]);
    assert!(release("Alt+G").is_empty());
}

#[test]
fn hotkeys_can_name_whichever_key_the_system_uses() {
    for text in ["CommandOrControl+V", "CmdOrCtrl+V", "commandorctrl+v"] {
        let state = state_with(&[("app.hotkey", text)]);
        let press =
            |keys: &str| handle_global_shortcut(ShortcutState::Pressed, number(keys), &state, None);
        assert_eq!(press(text), vec![ShortcutAction::ToggleWindow]);
        let command = !press("Super+V").is_empty();
        let control = !press("Ctrl+V").is_empty();
        assert!(command != control);
        assert!(press("Alt+V").is_empty());
    }
}

#[test]
fn a_text_that_is_no_shortcut_matches_nothing() {
    let state = state_with(&[("app.hotkey", "no such key"), ("app.search_hotkey", "")]);
    assert!(handle_global_shortcut(ShortcutState::Pressed, number("Alt+C"), &state, None).is_empty());
    assert!(handle_global_shortcut(ShortcutState::Released, number("Alt+F"), &state, None).is_empty());
    assert_eq!(
        handle_global_shortcut(ShortcutState::Released, number("Alt+1"), &state, Some(4)),
        vec![ShortcutAction::PasteItem(4)]
    );
}

#[test]
fn the_first_meaning_of_released_keys_counts() {
    let numbers = ShortcutNumbers {
        main: Some(1),
        sequential: Some(2),
        rich: Some(2),
        search: Some(3),
    };
    let act = |state, shortcut, mode, quick| act_on_shortcut(state, shortcut, &numbers, mode, quick);
    let released = ShortcutState::Released;
    assert_eq!(
        act(released, 2, true, Some(0)),
        vec![ShortcutAction::PasteNext, ShortcutAction::PasteRich]
    );
    assert_eq!(act(released, 2, false, Some(0)), vec![ShortcutAction::PasteRich]);
    assert_eq!(act(released, 3, true, Some(0)), vec![ShortcutAction::FocusSearch]);
    assert_eq!(act(released, 9, true, Some(7)), vec![ShortcutAction::PasteItem(7)]);
    assert!(act(released, 9, true, None).is_empty());
    assert_eq!(act(ShortcutState::Pressed, 1, true, Some(7)), vec![ShortcutAction::ToggleWindow]);
    assert!(act(ShortcutState::Pressed, 2, true, Some(7)).is_empty());
    let none = ShortcutNumbers { main: None, sequential: None, rich: None, search: None };
    assert!(act_on_shortcut(ShortcutState::Pressed, 0, &none, true, None).is_empty());
}

fn anon(stored: Stored, normalized: Option<&str>) -> AnonymousId {
    AnonymousId { stored, normalized: normalized.map(|t| t.to_string()), built: "built".to_string() }
}

#[test]
fn a_report_is_due_once_a_day() {
    let id = anon(Stored::Value(" abc ".to_string()), Some("abc"));
    let last = Stored::Value("2024-05-01".to_string());
    let plan = analytics_on(&id, &last, "2024-05-02", "https://example.org/ping", "1.2.3");
    assert_eq!(plan.ping.as_deref(), Some("https://example.org/ping?v=1.2.3&id=abc"));
    assert_eq!(plan.writes.len(), 1);
    assert_eq!(plan.writes[0].key, "app.last_ping_date");
    assert_eq!(plan.writes[0].value, "2024-05-02");
    let last = Stored::Value(plan.writes[0].value.clone());
    let plan = analytics_on(&id, &last, "2024-05-02", "https://example.org/ping", "1.2.3");
    assert!(plan.ping.is_none());
    assert!(plan.writes.is_empty());
}

#[test]
fn the_identifier_is_stored_where_it_differs() {
    let today = Stored::Value("d".to_string());
    for (id, expected) in [
        (anon(Stored::Missing, Some("ignored")), "built"),
        (anon(Stored::Unreadable, None), "built"),
        (anon(Stored::Value("bad".to_string()), None), "built"),
        (anon(Stored::Value("ABC".to_string()), Some("abc")), "abc"),
    ] {
        let plan = analytics_on(&id, &today, "d", "b", "v");
        assert_eq!(plan.writes.len(), 1);
        assert_eq!(plan.writes[0].key, "app.anon_id");
        assert_eq!(plan.writes[0].value, expected);
    }
    let plan = analytics_on(&anon(Stored::Missing, None), &Stored::Missing, "d", "b", "v");
    assert_eq!(plan.ping.as_deref(), Some("b?v=v&id=built"));
    assert_eq!(plan.writes.len(), 2);
}

#[test]
fn the_clock_gives_the_day() {
    let id = anon(Stored::Value("abc".to_string()), Some("abc"));
    let plan = init_analytics(&id, &Stored::Missing, "b", "v");
    let day = plan.writes[0].value.clone();
    assert_eq!(day.len(), 10);
    assert_eq!(day.as_bytes()[4], b'-');
    assert_eq!(day.as_bytes()[7], b'-');
    assert!(day.as_str() > "2020-01-01");
}
