//! Laws of the stored settings.

use vstd::prelude::*;

use crate::decimal::parsed;
use crate::platform::Platform;
use crate::settings_store::{SettingWrite, Stored, StoredSettings, StoredView};
use crate::startup::{setup_state, SettingsState};
use crate::startup_settings::{
    apply_startup_resets, load_settings, startup_keys, startup_writes, StartupSettings,
};
use crate::text::{all_trimmed, lines_of, lowered, pieces, trimmed, views};
use crate::volume::normalize_sound_volume;

verus! {

/// What a switch is set to by the value under its key: `true` switches it on, any other
/// text off, and without a value it has its default.
pub open spec fn switches(value: StoredView, default: bool, on: bool) -> bool {
    &&& value == StoredView::Value("true"@) ==> on
    &&& value is Value && value != StoredView::Value("true"@) ==> !on
    &&& !(value is Value) ==> on == default
}

/// What a text is by the value under its key: that value, or its default without one.
pub open spec fn spells(value: StoredView, default: Seq<char>, text: Seq<char>) -> bool {
    &&& value is Value ==> value == StoredView::Value(text)
    &&& !(value is Value) ==> text == default
}

/// What a number is by the value under its key: what that value reads as, if anything.
pub open spec fn counts(value: StoredView, number: Option<u32>) -> bool {
    match (value, number) {
        (StoredView::Value(text), Some(n)) => parsed(text, 0xffff_ffff) == Some(n as nat),
        (StoredView::Value(text), None) => parsed(text, 0xffff_ffff) is None,
        (_, Some(_)) => false,
        (_, None) => true,
    }
}

/// Every switch is set by the value under its own key.
pub proof fn law_switches_have_their_keys(
    stored: StoredSettings,
    volume: Option<u64>,
    res: StartupSettings,
)
    requires
        call_ensures(load_settings, (&stored, volume), res),
    ensures
        switches(stored.at("app.persistent"@), true, res.persistent),
        switches(stored.at("app.capture_files"@), true, res.capture_files),
        switches(stored.at("app.capture_rich_text"@), false, res.capture_rich_text),
        switches(
            stored.at("app.rich_text_snapshot_preview"@),
            false,
            res.rich_text_snapshot_preview,
        ),
        switches(stored.at("app.deduplicate"@), true, res.deduplicate),
        switches(stored.at("file_transfer_auto_copy"@), false, res.auto_copy_file),
        switches(stored.at("app.silent_start"@), true, res.silent_start),
        switches(stored.at("app.delete_after_paste"@), false, res.delete_after_paste),
        switches(stored.at("app.privacy_protection"@), true, res.privacy_protection),
        switches(stored.at("app.sequential_mode"@), false, res.sequential_mode),
        switches(stored.at("app.sound_enabled"@), false, res.sound_enabled),
        switches(stored.at("app.sound_paste_enabled"@), true, res.paste_sound_enabled),
        switches(stored.at("app.hide_tray_icon"@), false, res.hide_tray_icon),
        switches(stored.at("app.hide_dock_icon"@), false, res.hide_dock_icon),
        switches(stored.at("app.follow_mouse"@), true, res.follow_mouse),
        switches(stored.at("app.edge_docking"@), false, res.edge_docking),
        switches(stored.at("app.window_pinned"@), false, res.window_pinned),
        switches(stored.at("app.arrow_key_selection"@), false, res.arrow_key_selection),
        switches(stored.at("file_transfer_auto_close"@), false, res.auto_close_server),
{
}

/// Every text and number is the value under its own key.
pub proof fn law_texts_have_their_keys(
    stored: StoredSettings,
    volume: Option<u64>,
    res: StartupSettings,
)
    requires
        call_ensures(load_settings, (&stored, volume), res),
    ensures
        spells(stored.at("app.theme"@), "mica"@, res.theme@),
        spells(
            stored.at("app.privacy_protection_kinds"@),
            "phone,idcard,email,secret"@,
            res.privacy_kinds@,
        ),
        spells(stored.at("app.privacy_protection_custom_rules"@), ""@, res.privacy_custom@),
        spells(stored.at("app.cleanup_rules"@), ""@, res.cleanup_rules@),
        spells(stored.at("app.app_cleanup_policies"@), "[]"@, res.app_cleanup_policies@),
        spells(stored.at("app.sequential_hotkey"@), "Alt+V"@, res.sequential_hotkey@),
        spells(stored.at("app.rich_paste_hotkey"@), "Alt+Shift+V"@, res.rich_paste_hotkey@),
        spells(stored.at("app.search_hotkey"@), "Alt+F"@, res.search_hotkey@),
        spells(stored.at("app.quick_paste_modifier"@), "disabled"@, res.quick_paste_modifier@),
        spells(stored.at("app.last_edge_dock"@), "none"@, res.last_edge_dock@),
        spells(stored.at("app.hotkey"@), "Alt+C"@, res.main_hotkey@),
        counts(stored.at("app.window_width"@), res.window_width),
        counts(stored.at("app.window_height"@), res.window_height),
{
}

/// The sound volume is the stored one, normalized, and full without one.
pub proof fn law_volume_is_normalized(
    stored: StoredSettings,
    volume: Option<u64>,
    raw: u64,
    fraction: u64,
    res: StartupSettings,
)
    requires
        call_ensures(load_settings, (&stored, volume), res),
        call_ensures(normalize_sound_volume, (raw,), fraction),
    ensures
        volume is None ==> res.sound_volume == 0x3ff0_0000_0000_0000,
        volume == Some(raw) ==> res.sound_volume == fraction,
{
}

/// Whether two stores give the same for a key.
pub open spec fn alike(a: StoredSettings, b: StoredSettings, key: Seq<char>) -> bool {
    a.at(key) == b.at(key)
}

/// Each setting is decided by its own key alone: two stores with the same value there
/// give the same setting, whatever else they hold.
pub proof fn law_settings_depend_on_their_own_keys(
    a: StoredSettings,
    b: StoredSettings,
    volume: Option<u64>,
    other: Option<u64>,
    first: StartupSettings,
    second: StartupSettings,
)
    requires
        call_ensures(load_settings, (&a, volume), first),
        call_ensures(load_settings, (&b, other), second),
    ensures
        alike(a, b, "app.persistent"@) ==> first.persistent == second.persistent,
        alike(a, b, "app.capture_files"@) ==> first.capture_files == second.capture_files,
        alike(a, b, "app.capture_rich_text"@) ==> first.capture_rich_text
            == second.capture_rich_text,
        alike(a, b, "app.rich_text_snapshot_preview"@) ==> first.rich_text_snapshot_preview
            == second.rich_text_snapshot_preview,
        alike(a, b, "app.deduplicate"@) ==> first.deduplicate == second.deduplicate,
        alike(a, b, "file_transfer_auto_copy"@) ==> first.auto_copy_file == second.auto_copy_file,
        alike(a, b, "app.silent_start"@) ==> first.silent_start == second.silent_start,
        alike(a, b, "app.delete_after_paste"@) ==> first.delete_after_paste
            == second.delete_after_paste,
        alike(a, b, "app.privacy_protection"@) ==> first.privacy_protection
            == second.privacy_protection,
        alike(a, b, "app.sequential_mode"@) ==> first.sequential_mode == second.sequential_mode,
        alike(a, b, "app.sound_enabled"@) ==> first.sound_enabled == second.sound_enabled,
        alike(a, b, "app.sound_paste_enabled"@) ==> first.paste_sound_enabled
            == second.paste_sound_enabled,
        alike(a, b, "app.hide_tray_icon"@) ==> first.hide_tray_icon == second.hide_tray_icon,
        alike(a, b, "app.hide_dock_icon"@) ==> first.hide_dock_icon == second.hide_dock_icon,
        alike(a, b, "app.follow_mouse"@) ==> first.follow_mouse == second.follow_mouse,
        alike(a, b, "app.edge_docking"@) ==> first.edge_docking == second.edge_docking,
        alike(a, b, "app.window_pinned"@) ==> first.window_pinned == second.window_pinned,
        alike(a, b, "app.arrow_key_selection"@) ==> first.arrow_key_selection
            == second.arrow_key_selection,
        alike(a, b, "file_transfer_auto_close"@) ==> first.auto_close_server
            == second.auto_close_server,
        alike(a, b, "app.theme"@) ==> first.theme@ == second.theme@,
        alike(a, b, "app.privacy_protection_kinds"@) ==> first.privacy_kinds@
            == second.privacy_kinds@,
        alike(a, b, "app.privacy_protection_custom_rules"@) ==> first.privacy_custom@
            == second.privacy_custom@,
        alike(a, b, "app.cleanup_rules"@) ==> first.cleanup_rules@ == second.cleanup_rules@,
        alike(a, b, "app.app_cleanup_policies"@) ==> first.app_cleanup_policies@
            == second.app_cleanup_policies@,
        alike(a, b, "app.sequential_hotkey"@) ==> first.sequential_hotkey@
            == second.sequential_hotkey@,
        alike(a, b, "app.rich_paste_hotkey"@) ==> first.rich_paste_hotkey@
            == second.rich_paste_hotkey@,
        alike(a, b, "app.search_hotkey"@) ==> first.search_hotkey@ == second.search_hotkey@,
        alike(a, b, "app.quick_paste_modifier"@) ==> first.quick_paste_modifier@
            == second.quick_paste_modifier@,
        alike(a, b, "app.last_edge_dock"@) ==> first.last_edge_dock@ == second.last_edge_dock@,
        alike(a, b, "app.hotkey"@) ==> first.main_hotkey@ == second.main_hotkey@,
        alike(a, b, "app.window_width"@) ==> first.window_width == second.window_width,
        alike(a, b, "app.window_height"@) ==> first.window_height == second.window_height,
        volume == other ==> first.sound_volume == second.sound_volume,
{
}

/// Every setting arrives unchanged in the state of the running program.
pub proof fn law_state_keeps_the_settings(s: StartupSettings, res: SettingsState)
    requires
        call_ensures(setup_state, (&s,), res),
    ensures
        res.persistent == s.persistent,
        res.capture_files == s.capture_files,
        res.capture_rich_text == s.capture_rich_text,
        res.rich_text_snapshot_preview == s.rich_text_snapshot_preview,
        res.deduplicate == s.deduplicate,
        res.auto_copy_file == s.auto_copy_file,
        res.silent_start == s.silent_start,
        res.delete_after_paste == s.delete_after_paste,
        res.privacy_protection == s.privacy_protection,
        res.sequential_mode == s.sequential_mode,
        res.sound_enabled == s.sound_enabled,
        res.paste_sound_enabled == s.paste_sound_enabled,
        res.hide_tray_icon == s.hide_tray_icon,
        res.hide_dock_icon == s.hide_dock_icon,
        res.follow_mouse == s.follow_mouse,
        res.edge_docking == s.edge_docking,
        res.arrow_key_selection == s.arrow_key_selection,
        res.file_server_auto_close == s.auto_close_server,
        res.theme@ == s.theme@,
        res.cleanup_rules@ == s.cleanup_rules@,
        res.app_cleanup_policies@ == s.app_cleanup_policies@,
        res.sequential_paste_hotkey@ == s.sequential_hotkey@,
        res.rich_paste_hotkey@ == s.rich_paste_hotkey@,
        res.search_hotkey@ == s.search_hotkey@,
        res.quick_paste_modifier@ == s.quick_paste_modifier@,
        res.main_hotkey@ == s.main_hotkey@,
        res.sound_volume == s.sound_volume,
        views(res.privacy_protection_kinds@) == all_trimmed(pieces(s.privacy_kinds@, ',')),
        views(res.privacy_protection_custom_rules@) == all_trimmed(lines_of(s.privacy_custom@)),
{
}

/// Whether a value is among those to store under a key.
pub open spec fn stores(writes: Seq<SettingWrite>, key: Seq<char>, value: Seq<char>) -> bool {
    exists|i: int|
        0 <= i < writes.len() && (#[trigger] writes[i]).key@ == key && writes[i].value@ == value
}

/// The stored hotkey, without white space around it and in lower case.
pub open spec fn plain_hotkey(value: StoredView) -> Option<Seq<char>> {
    match value {
        StoredView::Value(text) => Some(lowered(trimmed(text))),
        _ => None,
    }
}

proof fn lemma_write_seen(
    writes: Seq<SettingWrite>,
    all: Seq<crate::settings_store::WriteView>,
    key: Seq<char>,
    value: Seq<char>,
)
    requires
        crate::settings_store::write_views(writes) == all,
    ensures
        stores(writes, key, value) <==> all.contains(
            crate::settings_store::WriteView { key, value },
        ),
        writes.len() == all.len(),
        forall|i: int|
            0 <= i < writes.len() ==> (#[trigger] writes[i]).key@ == all[i].key && writes[i].value@
                == all[i].value,
{
    let wanted = crate::settings_store::WriteView { key, value };
    assert(crate::settings_store::write_views(writes).len() == writes.len());
    assert forall|i: int| 0 <= i < writes.len() implies (#[trigger] writes[i]).key@ == all[i].key
        && writes[i].value@ == all[i].value by {
        assert(crate::settings_store::write_views(writes)[i] == writes[i]@);
    }
    if all.contains(wanted) {
        let i = choose|i: int| 0 <= i < all.len() && all[i] == wanted;
        assert(writes[i].key@ == key);
    }
    if stores(writes, key, value) {
        let i = choose|i: int|
            0 <= i < writes.len() && (#[trigger] writes[i]).key@ == key && writes[i].value@
                == value;
        assert(all[i] == wanted);
    }
}

/// On macOS a hotkey is reset exactly where it is one of the earlier defaults, in any
/// case and with white space around it; it becomes the present default.
pub proof fn law_earlier_hotkeys_are_replaced(
    stored: StoredSettings,
    is_admin: bool,
    res: Vec<SettingWrite>,
)
    requires
        call_ensures(apply_startup_resets, (Platform::MacOs, &stored, is_admin), res),
    ensures
        ({
            let main = plain_hotkey(stored.at("app.hotkey"@));
            stores(res@, "app.hotkey"@, "Alt+C"@) <==> main == Some("win+v"@) || main == Some(
                "command+shift+c"@,
            ) || main == Some("command+v"@)
        }),
        ({
            let sequential = plain_hotkey(stored.at("app.sequential_hotkey"@));
            stores(res@, "app.sequential_hotkey"@, "Alt+V"@) <==> sequential == Some("command+v"@)
                || sequential == Some("command+alt+v"@) || sequential == Some("command+z"@)
        }),
        ({
            let rich = plain_hotkey(stored.at("app.rich_paste_hotkey"@));
            stores(res@, "app.rich_paste_hotkey"@, "Alt+Shift+V"@) <==> rich == Some(
                "ctrl+shift+z"@,
            ) || rich == Some("command+alt+shift+v"@) || rich == Some("command+shift+v"@)
        }),
        ({
            let search = plain_hotkey(stored.at("app.search_hotkey"@));
            stores(res@, "app.search_hotkey"@, "Alt+F"@) <==> search == Some("command+f"@) || search
                == Some("command+alt+f"@)
        }),
        forall|i: int|
            0 <= i < res@.len() ==> {
                ||| (#[trigger] res@[i]).key@ == "app.hotkey"@ && res@[i].value@ == "Alt+C"@
                ||| res@[i].key@ == "app.sequential_hotkey"@ && res@[i].value@ == "Alt+V"@
                ||| res@[i].key@ == "app.rich_paste_hotkey"@ && res@[i].value@ == "Alt+Shift+V"@
                ||| res@[i].key@ == "app.search_hotkey"@ && res@[i].value@ == "Alt+F"@
            },
        forall|i: int, j: int|
            0 <= i < j < res@.len() ==> (#[trigger] res@[i]).key@ != (#[trigger] res@[j]).key@,
{
    let all = crate::startup_settings::startup_resets(Platform::MacOs, stored, is_admin);
    crate::startup_settings::lemma_hotkey_keys_differ();
    lemma_write_seen(res@, all, "app.hotkey"@, "Alt+C"@);
    lemma_write_seen(res@, all, "app.sequential_hotkey"@, "Alt+V"@);
    lemma_write_seen(res@, all, "app.rich_paste_hotkey"@, "Alt+Shift+V"@);
    lemma_write_seen(res@, all, "app.search_hotkey"@, "Alt+F"@);
    let main = crate::startup_settings::legacy_main_hotkeys();
    let sequential = crate::startup_settings::legacy_sequential_hotkeys();
    let rich = crate::startup_settings::legacy_rich_paste_hotkeys();
    let search = crate::startup_settings::legacy_search_hotkeys();
    assert(main[0] == "win+v"@ && main[1] == "command+shift+c"@ && main[2] == "command+v"@);
    assert(sequential[0] == "command+v"@ && sequential[1] == "command+alt+v"@ && sequential[2]
        == "command+z"@);
    assert(rich[0] == "ctrl+shift+z"@ && rich[1] == "command+alt+shift+v"@ && rich[2]
        == "command+shift+v"@);
    assert(search[0] == "command+f"@ && search[1] == "command+alt+f"@);
    let a = crate::startup_settings::hotkey_migration(stored, "app.hotkey"@, main, "Alt+C"@);
    let b = crate::startup_settings::hotkey_migration(
        stored,
        "app.sequential_hotkey"@,
        sequential,
        "Alt+V"@,
    );
    let c = crate::startup_settings::hotkey_migration(
        stored,
        "app.rich_paste_hotkey"@,
        rich,
        "Alt+Shift+V"@,
    );
    let d = crate::startup_settings::hotkey_migration(
        stored,
        "app.search_hotkey"@,
        search,
        "Alt+F"@,
    );
    assert(all == a + b + c + d);
    if a.len() > 0 {
        assert(all[0] == a[0]);
    }
    if b.len() > 0 {
        assert(all[a.len() as int] == b[0]);
    }
    if c.len() > 0 {
        assert(all[(a.len() + b.len()) as int] == c[0]);
    }
    if d.len() > 0 {
        assert(all[(a.len() + b.len() + c.len()) as int] == d[0]);
    }
}

/// On Windows the paste method for games is given up exactly where the shell lacks
/// administrator rights; nothing else is reset there, and nothing at all elsewhere.
pub proof fn law_game_mode_needs_rights(
    platform: Platform,
    stored: StoredSettings,
    is_admin: bool,
    res: Vec<SettingWrite>,
)
    requires
        call_ensures(apply_startup_resets, (platform, &stored, is_admin), res),
        !(platform is MacOs),
    ensures
        stores(res@, "app.paste_method"@, "shift_insert"@) <==> platform is Windows && !is_admin
            && stored.at("app.paste_method"@) == StoredView::Value("game_mode"@),
        res@.len() <= 1,
        res@.len() == 1 ==> stores(res@, "app.paste_method"@, "shift_insert"@),
{
    let all = crate::startup_settings::startup_resets(platform, stored, is_admin);
    lemma_write_seen(res@, all, "app.paste_method"@, "shift_insert"@);
    if all.len() > 0 {
        assert(all.contains(all[0]));
    }
}

/// Before the settings are read, macOS also stores that the window is not pinned; the
/// other systems store the resets alone.
pub proof fn law_macos_unpins(
    platform: Platform,
    stored: StoredSettings,
    is_admin: bool,
    resets: Vec<SettingWrite>,
    res: Vec<SettingWrite>,
)
    requires
        call_ensures(apply_startup_resets, (platform, &stored, is_admin), resets),
        call_ensures(startup_writes, (platform, &stored, is_admin), res),
    ensures
        platform is MacOs ==> res@.len() == resets@.len() + 1 && res@.last().key@
            == "app.window_pinned"@ && res@.last().value@ == "false"@,
        !(platform is MacOs) ==> res@.len() == resets@.len(),
        forall|i: int|
            0 <= i < resets@.len() ==> (#[trigger] res@[i]).key@ == resets@[i].key@
                && res@[i].value@ == resets@[i].value@,
{
    let all = crate::startup_settings::startup_resets(platform, stored, is_admin);
    let more = crate::startup_settings::writes_before_loading(platform, stored, is_admin);
    lemma_write_seen(resets@, all, ""@, ""@);
    lemma_write_seen(res@, more, ""@, ""@);
}

/// Two runs of the resets agree wherever the stores do on the five keys concerned.
pub proof fn law_resets_depend_on_five_keys(
    platform: Platform,
    a: StoredSettings,
    b: StoredSettings,
    is_admin: bool,
    first: Vec<SettingWrite>,
    second: Vec<SettingWrite>,
)
    requires
        call_ensures(apply_startup_resets, (platform, &a, is_admin), first),
        call_ensures(apply_startup_resets, (platform, &b, is_admin), second),
        a.at("app.hotkey"@) == b.at("app.hotkey"@),
        a.at("app.sequential_hotkey"@) == b.at("app.sequential_hotkey"@),
        a.at("app.rich_paste_hotkey"@) == b.at("app.rich_paste_hotkey"@),
        a.at("app.search_hotkey"@) == b.at("app.search_hotkey"@),
        a.at("app.paste_method"@) == b.at("app.paste_method"@),
    ensures
        crate::settings_store::write_views(first@) == crate::settings_store::write_views(second@),
{
}

/// What is added to a store under a new key is found there, and nothing else changes;
/// under a key that is listed already nothing changes at all.
pub proof fn law_added_values_are_found(
    stored: &mut StoredSettings,
    key: &str,
    value: Stored,
    other: Seq<char>,
    res: (),
)
    requires
        call_ensures(StoredSettings::add, (stored, key, value), res),
    ensures
        other != key@ ==> final(stored).at(other) == old(stored).at(other),
        (forall|i: int|
            0 <= i < old(stored).entries@.len() ==> (#[trigger] old(stored).entries@[i]).key@
                != key@) ==> final(stored).at(key@) == value@,
{
}

/// A lookup gives the value of the first entry with the key.
pub proof fn law_lookup_gives_the_first_entry(
    stored: StoredSettings,
    key: &str,
    i: int,
    res: Stored,
)
    requires
        call_ensures(StoredSettings::get, (&stored, key), res),
    ensures
        0 <= i < stored.entries@.len() && stored.entries@[i].key@ == key@ && (forall|j: int|
            0 <= j < i ==> (#[trigger] stored.entries@[j]).key@ != key@) ==> res@
            == stored.entries@[i].value@,
        (forall|j: int|
            0 <= j < stored.entries@.len() ==> (#[trigger] stored.entries@[j]).key@ != key@)
            ==> res@ is Missing,
{
    if 0 <= i < stored.entries@.len() && stored.entries@[i].key@ == key@ && (forall|j: int|
        0 <= j < i ==> (#[trigger] stored.entries@[j]).key@ != key@) {
        lemma_first_entry(stored.entries@, key@, i);
    }
    if forall|j: int|
        0 <= j < stored.entries@.len() ==> (#[trigger] stored.entries@[j]).key@ != key@ {
        lemma_no_entry(stored.entries@, key@);
    }
}

proof fn lemma_first_entry(
    entries: Seq<crate::settings_store::StoredEntry>,
    key: Seq<char>,
    i: int,
)
    requires
        0 <= i < entries.len(),
        entries[i].key@ == key,
        forall|j: int| 0 <= j < i ==> (#[trigger] entries[j]).key@ != key,
    ensures
        crate::settings_store::lookup(entries, key) == entries[i].value@,
    decreases entries.len(),
{
    if i > 0 {
        let rest = entries.drop_first();
        assert forall|j: int| 0 <= j < i - 1 implies (#[trigger] rest[j]).key@ != key by {
            assert(rest[j] == entries[j + 1]);
        }
        assert(rest[i - 1] == entries[i]);
        lemma_first_entry(rest, key, i - 1);
        assert(entries[0].key@ != key);
    }
}

proof fn lemma_no_entry(entries: Seq<crate::settings_store::StoredEntry>, key: Seq<char>)
    requires
        forall|j: int| 0 <= j < entries.len() ==> (#[trigger] entries[j]).key@ != key,
    ensures
        crate::settings_store::lookup(entries, key) is Missing,
    decreases entries.len(),
{
    if entries.len() > 0 {
        let rest = entries.drop_first();
        assert forall|j: int| 0 <= j < rest.len() implies (#[trigger] rest[j]).key@ != key by {
            assert(rest[j] == entries[j + 1]);
        }
        assert(entries[0].key@ != key);
        lemma_no_entry(rest, key);
    }
}

/// A flag and a text are read from a stored value as the settings read them.
pub proof fn law_stored_values_are_read(
    stored: Stored,
    default: bool,
    other: &str,
    flag: bool,
    text: String,
    copy: Stored,
)
    requires
        call_ensures(Stored::flag_or, (&stored, default), flag),
        call_ensures(Stored::text_or, (&stored, other), text),
        call_ensures(Stored::copy, (&stored,), copy),
    ensures
        switches(stored@, default, flag),
        spells(stored@, other@, text@),
        copy@ == stored@,
{
}

/// A write holds the key and the value that it was made of.
pub proof fn law_writes_hold_key_and_value(key: &str, value: &str, res: SettingWrite)
    requires
        call_ensures(crate::settings_store::write_of, (key, value), res),
    ensures
        res.key@ == key@,
        res.value@ == value@,
{
}

/// Every key that a setting is read under is handed out, the one of the sound volume too.
pub proof fn law_volume_key_is_handed_out(res: Vec<&'static str>)
    requires
        call_ensures(startup_keys, (), res),
    ensures
        exists|i: int| 0 <= i < res@.len() && (#[trigger] res@[i])@ == "app.sound_volume"@,
{
    let names = crate::startup_settings::startup_key_names();
    let service = crate::startup_settings::service_keys();
    assert(service[2] == "app.sound_volume"@);
    let n = names.len() - service.len() + 2;
    assert(names[n] == service[2]);
    assert(crate::startup_settings::str_views(res@)[n] == res@[n]@);
    assert(res@[n]@ == "app.sound_volume"@);
}

} // verus!
