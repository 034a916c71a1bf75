//! The settings that the shell starts with, and the stored ones that it resets
//! before it reads them.

use vstd::prelude::*;

use crate::decimal::{parse_u32, parsed};
use crate::platform::Platform;
use crate::settings_store::{
    after_writes, lemma_after_writes_concat, write_of, write_views, SettingWrite, Stored,
    StoredSettings, StoredView, WriteView,
};
use crate::text::{lowered, same_text, to_ascii_lowercase, trim, trimmed};
use crate::volume::{normalize_sound_volume, normalized, DOUBLE_ONE};

verus! {

/// The settings that the shell starts with.
#[derive(Debug)]
pub struct StartupSettings {
    pub theme: String,
    pub persistent: bool,
    pub capture_files: bool,
    pub capture_rich_text: bool,
    pub rich_text_snapshot_preview: bool,
    pub deduplicate: bool,
    pub auto_copy_file: bool,
    pub silent_start: bool,
    pub delete_after_paste: bool,
    pub privacy_protection: bool,
    pub privacy_kinds: String,
    pub privacy_custom: String,
    pub cleanup_rules: String,
    pub app_cleanup_policies: String,
    pub sequential_mode: bool,
    pub sequential_hotkey: String,
    pub rich_paste_hotkey: String,
    pub search_hotkey: String,
    pub quick_paste_modifier: String,
    pub sound_enabled: bool,
    pub paste_sound_enabled: bool,
    pub hide_tray_icon: bool,
    pub hide_dock_icon: bool,
    pub follow_mouse: bool,
    pub edge_docking: bool,
    pub last_edge_dock: String,
    pub window_pinned: bool,
    pub window_width: Option<u32>,
    pub window_height: Option<u32>,
    pub main_hotkey: String,
    pub arrow_key_selection: bool,
    pub auto_close_server: bool,
    /// A fraction between 0 and 1, as a double.
    pub sound_volume: u64,
}

/// The number that a stored value is.
pub open spec fn stored_number(value: StoredView) -> Option<nat> {
    match value {
        StoredView::Value(text) => parsed(text, u32::MAX as nat),
        _ => None,
    }
}

fn number_of(value: &Stored) -> (res: Option<u32>)
    ensures
        match (res, stored_number(value@)) {
            (Some(n), Some(m)) => n == m,
            (None, None) => true,
            _ => false,
        },
{
    match value {
        Stored::Value(text) => parse_u32(text.as_str()),
        _ => None,
    }
}

impl StartupSettings {
    /// Whether these are the settings of a store, where `volume` is the stored sound
    /// volume as a double, if there is one that reads as a number.
    pub open spec fn are_of(self, stored: StoredSettings, volume: Option<u64>) -> bool {
        &&& self.theme@ == stored.at("app.theme"@).text_or("mica"@)
        &&& self.persistent == stored.at("app.persistent"@).flag_or(true)
        &&& self.capture_files == stored.at("app.capture_files"@).flag_or(true)
        &&& self.capture_rich_text == stored.at("app.capture_rich_text"@).flag_or(false)
        &&& self.rich_text_snapshot_preview == stored.at(
            "app.rich_text_snapshot_preview"@,
        ).flag_or(false)
        &&& self.deduplicate == stored.at("app.deduplicate"@).flag_or(true)
        &&& self.auto_copy_file == stored.at("file_transfer_auto_copy"@).flag_or(false)
        &&& self.silent_start == stored.at("app.silent_start"@).flag_or(true)
        &&& self.delete_after_paste == stored.at("app.delete_after_paste"@).flag_or(false)
        &&& self.privacy_protection == stored.at("app.privacy_protection"@).flag_or(true)
        &&& self.privacy_kinds@ == stored.at("app.privacy_protection_kinds"@).text_or(
            "phone,idcard,email,secret"@,
        )
        &&& self.privacy_custom@ == stored.at("app.privacy_protection_custom_rules"@).text_or(""@)
        &&& self.cleanup_rules@ == stored.at("app.cleanup_rules"@).text_or(""@)
        &&& self.app_cleanup_policies@ == stored.at("app.app_cleanup_policies"@).text_or("[]"@)
        &&& self.sequential_mode == stored.at("app.sequential_mode"@).flag_or(false)
        &&& self.sequential_hotkey@ == stored.at("app.sequential_hotkey"@).text_or("Alt+V"@)
        &&& self.rich_paste_hotkey@ == stored.at("app.rich_paste_hotkey"@).text_or("Alt+Shift+V"@)
        &&& self.search_hotkey@ == stored.at("app.search_hotkey"@).text_or("Alt+F"@)
        &&& self.quick_paste_modifier@ == stored.at("app.quick_paste_modifier"@).text_or(
            "disabled"@,
        )
        &&& self.sound_enabled == stored.at("app.sound_enabled"@).flag_or(false)
        &&& self.paste_sound_enabled == stored.at("app.sound_paste_enabled"@).flag_or(true)
        &&& self.hide_tray_icon == stored.at("app.hide_tray_icon"@).flag_or(false)
        &&& self.hide_dock_icon == stored.at("app.hide_dock_icon"@).flag_or(false)
        &&& self.follow_mouse == stored.at("app.follow_mouse"@).flag_or(true)
        &&& self.edge_docking == stored.at("app.edge_docking"@).flag_or(false)
        &&& self.last_edge_dock@ == stored.at("app.last_edge_dock"@).text_or("none"@)
        &&& self.window_pinned == stored.at("app.window_pinned"@).flag_or(false)
        &&& same_number(self.window_width, stored_number(stored.at("app.window_width"@)))
        &&& same_number(self.window_height, stored_number(stored.at("app.window_height"@)))
        &&& self.main_hotkey@ == stored.at("app.hotkey"@).text_or("Alt+C"@)
        &&& self.arrow_key_selection == stored.at("app.arrow_key_selection"@).flag_or(false)
        &&& self.auto_close_server == stored.at("file_transfer_auto_close"@).flag_or(false)
        &&& self.sound_volume == match volume {
            Some(raw) => normalized(raw),
            None => DOUBLE_ONE as nat,
        }
    }
}

/// Whether two optional numbers are the same.
pub open spec fn same_number(a: Option<u32>, b: Option<nat>) -> bool {
    match (a, b) {
        (Some(n), Some(m)) => n == m,
        (None, None) => true,
        _ => false,
    }
}

/// Reads the settings to start with. `volume` is the stored sound volume as a
/// double, if there is one that reads as a number.
pub fn load_settings(stored: &StoredSettings, volume: Option<u64>) -> (res: StartupSettings)
    ensures
        res.are_of(*stored, volume),
{
    StartupSettings {
        theme: stored.get("app.theme").text_or("mica"),
        persistent: stored.get("app.persistent").flag_or(true),
        capture_files: stored.get("app.capture_files").flag_or(true),
        capture_rich_text: stored.get("app.capture_rich_text").flag_or(false),
        rich_text_snapshot_preview: stored.get("app.rich_text_snapshot_preview").flag_or(false),
        deduplicate: stored.get("app.deduplicate").flag_or(true),
        auto_copy_file: stored.get("file_transfer_auto_copy").flag_or(false),
        silent_start: stored.get("app.silent_start").flag_or(true),
        delete_after_paste: stored.get("app.delete_after_paste").flag_or(false),
        privacy_protection: stored.get("app.privacy_protection").flag_or(true),
        privacy_kinds: stored.get("app.privacy_protection_kinds").text_or(
            "phone,idcard,email,secret",
        ),
        privacy_custom: stored.get("app.privacy_protection_custom_rules").text_or(""),
        cleanup_rules: stored.get("app.cleanup_rules").text_or(""),
        app_cleanup_policies: stored.get("app.app_cleanup_policies").text_or("[]"),
        sequential_mode: stored.get("app.sequential_mode").flag_or(false),
        sequential_hotkey: stored.get("app.sequential_hotkey").text_or("Alt+V"),
        rich_paste_hotkey: stored.get("app.rich_paste_hotkey").text_or("Alt+Shift+V"),
        search_hotkey: stored.get("app.search_hotkey").text_or("Alt+F"),
        quick_paste_modifier: stored.get("app.quick_paste_modifier").text_or("disabled"),
        sound_enabled: stored.get("app.sound_enabled").flag_or(false),
        paste_sound_enabled: stored.get("app.sound_paste_enabled").flag_or(true),
        hide_tray_icon: stored.get("app.hide_tray_icon").flag_or(false),
        hide_dock_icon: stored.get("app.hide_dock_icon").flag_or(false),
        follow_mouse: stored.get("app.follow_mouse").flag_or(true),
        edge_docking: stored.get("app.edge_docking").flag_or(false),
        last_edge_dock: stored.get("app.last_edge_dock").text_or("none"),
        window_pinned: stored.get("app.window_pinned").flag_or(false),
        window_width: number_of(&stored.get("app.window_width")),
        window_height: number_of(&stored.get("app.window_height")),
        main_hotkey: stored.get("app.hotkey").text_or("Alt+C"),
        arrow_key_selection: stored.get("app.arrow_key_selection").flag_or(false),
        auto_close_server: stored.get("file_transfer_auto_close").flag_or(false),
        sound_volume: match volume {
            Some(raw) => normalize_sound_volume(raw),
            None => DOUBLE_ONE,
        },
    }
}

/// The keys for what is kept of the clipboard.
pub open spec fn clipboard_keys() -> Seq<Seq<char>> {
    seq![
        "app.persistent"@,
        "app.capture_files"@,
        "app.capture_rich_text"@,
        "app.rich_text_snapshot_preview"@,
        "app.deduplicate"@,
        "app.delete_after_paste"@,
        "app.privacy_protection"@,
        "app.privacy_protection_kinds"@,
        "app.privacy_protection_custom_rules"@,
        "app.cleanup_rules"@,
        "app.app_cleanup_policies"@,
    ]
}

/// The keys for hotkeys and pasting.
pub open spec fn hotkey_keys() -> Seq<Seq<char>> {
    seq![
        "app.hotkey"@,
        "app.sequential_hotkey"@,
        "app.rich_paste_hotkey"@,
        "app.search_hotkey"@,
        "app.quick_paste_modifier"@,
        "app.sequential_mode"@,
        "app.arrow_key_selection"@,
        "app.paste_method"@,
    ]
}

/// The keys for the window and its looks.
pub open spec fn window_keys() -> Seq<Seq<char>> {
    seq![
        "app.theme"@,
        "app.silent_start"@,
        "app.hide_tray_icon"@,
        "app.hide_dock_icon"@,
        "app.follow_mouse"@,
        "app.edge_docking"@,
        "app.last_edge_dock"@,
        "app.window_pinned"@,
        "app.window_width"@,
        "app.window_height"@,
    ]
}

/// The keys for sounds and services.
pub open spec fn service_keys() -> Seq<Seq<char>> {
    seq![
        "app.sound_enabled"@,
        "app.sound_paste_enabled"@,
        "app.sound_volume"@,
        "file_transfer_auto_copy"@,
        "file_transfer_auto_close"@,
        "file_server_enabled"@,
        "file_server_port"@,
        "app.use_win_v_shortcut"@,
    ]
}

/// The keys of all stored values that the start depends on.
pub open spec fn startup_key_names() -> Seq<Seq<char>> {
    clipboard_keys() + hotkey_keys() + window_keys() + service_keys()
}

/// The keys of all stored values that the start depends on.
pub fn startup_keys() -> (res: Vec<&'static str>)
    ensures
        str_views(res@) == startup_key_names(),
{
    let mut clipboard = vec![
        "app.persistent",
        "app.capture_files",
        "app.capture_rich_text",
        "app.rich_text_snapshot_preview",
        "app.deduplicate",
        "app.delete_after_paste",
        "app.privacy_protection",
        "app.privacy_protection_kinds",
        "app.privacy_protection_custom_rules",
        "app.cleanup_rules",
        "app.app_cleanup_policies",
    ];
    assert(str_views(clipboard@) =~= clipboard_keys());
    let mut hotkey = vec![
        "app.hotkey",
        "app.sequential_hotkey",
        "app.rich_paste_hotkey",
        "app.search_hotkey",
        "app.quick_paste_modifier",
        "app.sequential_mode",
        "app.arrow_key_selection",
        "app.paste_method",
    ];
    assert(str_views(hotkey@) =~= hotkey_keys());
    let mut window = vec![
        "app.theme",
        "app.silent_start",
        "app.hide_tray_icon",
        "app.hide_dock_icon",
        "app.follow_mouse",
        "app.edge_docking",
        "app.last_edge_dock",
        "app.window_pinned",
        "app.window_width",
        "app.window_height",
    ];
    assert(str_views(window@) =~= window_keys());
    let mut service = vec![
        "app.sound_enabled",
        "app.sound_paste_enabled",
        "app.sound_volume",
        "file_transfer_auto_copy",
        "file_transfer_auto_close",
        "file_server_enabled",
        "file_server_port",
        "app.use_win_v_shortcut",
    ];
    assert(str_views(service@) =~= service_keys());
    let mut keys: Vec<&'static str> = Vec::new();
    keys.append(&mut clipboard);
    keys.append(&mut hotkey);
    keys.append(&mut window);
    keys.append(&mut service);
    assert(str_views(keys@) =~= startup_key_names());
    keys
}

/// Whether two stores have the same values under `keys`.
pub open spec fn agree_on(a: StoredSettings, b: StoredSettings, keys: Seq<Seq<char>>) -> bool {
    forall|i: int| 0 <= i < keys.len() ==> a.at(#[trigger] keys[i]) == b.at(keys[i])
}

/// Stores that agree on the keys of the start agree on each group of them.
pub proof fn lemma_agree_on_groups(a: StoredSettings, b: StoredSettings)
    requires
        agree_on(a, b, startup_key_names()),
    ensures
        agree_on(a, b, clipboard_keys()),
        agree_on(a, b, hotkey_keys()),
        agree_on(a, b, window_keys()),
        agree_on(a, b, service_keys()),
{
    lemma_agree_on_parts(a, b, clipboard_keys() + hotkey_keys() + window_keys(), service_keys());
    lemma_agree_on_parts(a, b, clipboard_keys() + hotkey_keys(), window_keys());
    lemma_agree_on_parts(a, b, clipboard_keys(), hotkey_keys());
}

proof fn lemma_agree_on_parts(
    a: StoredSettings,
    b: StoredSettings,
    first: Seq<Seq<char>>,
    second: Seq<Seq<char>>,
)
    requires
        agree_on(a, b, first + second),
    ensures
        agree_on(a, b, first),
        agree_on(a, b, second),
{
    assert forall|i: int| 0 <= i < first.len() implies a.at(#[trigger] first[i]) == b.at(
        first[i],
    ) by {
        assert((first + second)[i] == first[i]);
    }
    assert forall|i: int| 0 <= i < second.len() implies a.at(#[trigger] second[i]) == b.at(
        second[i],
    ) by {
        assert((first + second)[first.len() + i] == second[i]);
    }
}

proof fn lemma_agree_on_clipboard_keys(a: StoredSettings, b: StoredSettings)
    requires
        agree_on(a, b, clipboard_keys()),
    ensures
        a.at("app.persistent"@) == b.at("app.persistent"@),
        a.at("app.capture_files"@) == b.at("app.capture_files"@),
        a.at("app.capture_rich_text"@) == b.at("app.capture_rich_text"@),
        a.at("app.rich_text_snapshot_preview"@) == b.at("app.rich_text_snapshot_preview"@),
        a.at("app.deduplicate"@) == b.at("app.deduplicate"@),
        a.at("app.delete_after_paste"@) == b.at("app.delete_after_paste"@),
        a.at("app.privacy_protection"@) == b.at("app.privacy_protection"@),
        a.at("app.privacy_protection_kinds"@) == b.at("app.privacy_protection_kinds"@),
        a.at("app.privacy_protection_custom_rules"@) == b.at("app.privacy_protection_custom_rules"@),
        a.at("app.cleanup_rules"@) == b.at("app.cleanup_rules"@),
        a.at("app.app_cleanup_policies"@) == b.at("app.app_cleanup_policies"@),
{
    let keys = clipboard_keys();
    assert(keys[0] == "app.persistent"@);
    assert(keys[1] == "app.capture_files"@);
    assert(keys[2] == "app.capture_rich_text"@);
    assert(keys[3] == "app.rich_text_snapshot_preview"@);
    assert(keys[4] == "app.deduplicate"@);
    assert(keys[5] == "app.delete_after_paste"@);
    assert(keys[6] == "app.privacy_protection"@);
    assert(keys[7] == "app.privacy_protection_kinds"@);
    assert(keys[8] == "app.privacy_protection_custom_rules"@);
    assert(keys[9] == "app.cleanup_rules"@);
    assert(keys[10] == "app.app_cleanup_policies"@);
}

proof fn lemma_agree_on_hotkey_keys(a: StoredSettings, b: StoredSettings)
    requires
        agree_on(a, b, hotkey_keys()),
    ensures
        a.at("app.hotkey"@) == b.at("app.hotkey"@),
        a.at("app.sequential_hotkey"@) == b.at("app.sequential_hotkey"@),
        a.at("app.rich_paste_hotkey"@) == b.at("app.rich_paste_hotkey"@),
        a.at("app.search_hotkey"@) == b.at("app.search_hotkey"@),
        a.at("app.quick_paste_modifier"@) == b.at("app.quick_paste_modifier"@),
        a.at("app.sequential_mode"@) == b.at("app.sequential_mode"@),
        a.at("app.arrow_key_selection"@) == b.at("app.arrow_key_selection"@),
        a.at("app.paste_method"@) == b.at("app.paste_method"@),
{
    let keys = hotkey_keys();
    assert(keys[0] == "app.hotkey"@);
    assert(keys[1] == "app.sequential_hotkey"@);
    assert(keys[2] == "app.rich_paste_hotkey"@);
    assert(keys[3] == "app.search_hotkey"@);
    assert(keys[4] == "app.quick_paste_modifier"@);
    assert(keys[5] == "app.sequential_mode"@);
    assert(keys[6] == "app.arrow_key_selection"@);
    assert(keys[7] == "app.paste_method"@);
}

proof fn lemma_agree_on_window_keys(a: StoredSettings, b: StoredSettings)
    requires
        agree_on(a, b, window_keys()),
    ensures
        a.at("app.theme"@) == b.at("app.theme"@),
        a.at("app.silent_start"@) == b.at("app.silent_start"@),
        a.at("app.hide_tray_icon"@) == b.at("app.hide_tray_icon"@),
        a.at("app.hide_dock_icon"@) == b.at("app.hide_dock_icon"@),
        a.at("app.follow_mouse"@) == b.at("app.follow_mouse"@),
        a.at("app.edge_docking"@) == b.at("app.edge_docking"@),
        a.at("app.last_edge_dock"@) == b.at("app.last_edge_dock"@),
        a.at("app.window_pinned"@) == b.at("app.window_pinned"@),
        a.at("app.window_width"@) == b.at("app.window_width"@),
        a.at("app.window_height"@) == b.at("app.window_height"@),
{
    let keys = window_keys();
    assert(keys[0] == "app.theme"@);
    assert(keys[1] == "app.silent_start"@);
    assert(keys[2] == "app.hide_tray_icon"@);
    assert(keys[3] == "app.hide_dock_icon"@);
    assert(keys[4] == "app.follow_mouse"@);
    assert(keys[5] == "app.edge_docking"@);
    assert(keys[6] == "app.last_edge_dock"@);
    assert(keys[7] == "app.window_pinned"@);
    assert(keys[8] == "app.window_width"@);
    assert(keys[9] == "app.window_height"@);
}

proof fn lemma_agree_on_service_keys(a: StoredSettings, b: StoredSettings)
    requires
        agree_on(a, b, service_keys()),
    ensures
        a.at("app.sound_enabled"@) == b.at("app.sound_enabled"@),
        a.at("app.sound_paste_enabled"@) == b.at("app.sound_paste_enabled"@),
        a.at("file_transfer_auto_copy"@) == b.at("file_transfer_auto_copy"@),
        a.at("file_transfer_auto_close"@) == b.at("file_transfer_auto_close"@),
{
    let keys = service_keys();
    assert(keys[0] == "app.sound_enabled"@);
    assert(keys[1] == "app.sound_paste_enabled"@);
    assert(keys[3] == "file_transfer_auto_copy"@);
    assert(keys[4] == "file_transfer_auto_close"@);
}

/// The settings depend on nothing but the values under the keys of the start.
pub proof fn lemma_settings_read_startup_keys(
    a: StoredSettings,
    b: StoredSettings,
    settings: StartupSettings,
    volume: Option<u64>,
)
    requires
        agree_on(a, b, startup_key_names()),
        settings.are_of(a, volume),
    ensures
        settings.are_of(b, volume),
{
    lemma_agree_on_groups(a, b);
    lemma_agree_on_clipboard_keys(a, b);
    lemma_agree_on_hotkey_keys(a, b);
    lemma_agree_on_window_keys(a, b);
    lemma_agree_on_service_keys(a, b);
}

/// The resets depend on nothing but the values under the keys of the start.
pub proof fn lemma_resets_read_startup_keys(
    a: StoredSettings,
    b: StoredSettings,
    platform: Platform,
    is_admin: bool,
)
    requires
        agree_on(a, b, startup_key_names()),
    ensures
        startup_resets(platform, a, is_admin) == startup_resets(platform, b, is_admin),
{
    lemma_agree_on_groups(a, b);
    lemma_agree_on_hotkey_keys(a, b);
}

/// A store that cannot be read starts the shell with the same settings as one in
/// which the unreadable keys have no value.
pub proof fn lemma_unreadable_counts_as_missing(
    settings: StartupSettings,
    stored: StoredSettings,
    other: StoredSettings,
    volume: Option<u64>,
)
    requires
        settings.are_of(stored, volume),
        forall|key: Seq<char>| #[trigger]
            other.at(key) == (if stored.at(key) is Unreadable {
                StoredView::Missing
            } else {
                stored.at(key)
            }),
    ensures
        settings.are_of(other, volume),
{
}

/// The hotkeys, in lower case, that earlier versions had as the default for opening
/// the window.
pub open spec fn legacy_main_hotkeys() -> Seq<Seq<char>> {
    seq!["win+v"@, "command+shift+c"@, "command+v"@]
}

/// The earlier defaults for pasting in sequence.
pub open spec fn legacy_sequential_hotkeys() -> Seq<Seq<char>> {
    seq!["command+v"@, "command+alt+v"@, "command+z"@]
}

/// The earlier defaults for pasting rich text.
pub open spec fn legacy_rich_paste_hotkeys() -> Seq<Seq<char>> {
    seq!["ctrl+shift+z"@, "command+alt+shift+v"@, "command+shift+v"@]
}

/// The earlier defaults for searching.
pub open spec fn legacy_search_hotkeys() -> Seq<Seq<char>> {
    seq!["command+f"@, "command+alt+f"@]
}

/// Whether a stored hotkey is one of `legacy`, in any case and with white space
/// around it.
pub open spec fn is_legacy(value: StoredView, legacy: Seq<Seq<char>>) -> bool {
    value matches StoredView::Value(text) && legacy.contains(lowered(trimmed(text)))
}

/// The write that replaces an earlier default by the new one; none for any other
/// value.
pub open spec fn hotkey_migration(
    stored: StoredSettings,
    key: Seq<char>,
    legacy: Seq<Seq<char>>,
    new_default: Seq<char>,
) -> Seq<WriteView> {
    if is_legacy(stored.at(key), legacy) {
        seq![WriteView { key, value: new_default }]
    } else {
        seq![]
    }
}

/// The values that are reset before the settings are read.
///
/// On Windows, the paste method for games needs administrator rights and falls back
/// to the default without them. On macOS, hotkeys that are still an earlier default
/// become the present one.
pub open spec fn startup_resets(
    platform: Platform,
    stored: StoredSettings,
    is_admin: bool,
) -> Seq<WriteView> {
    match platform {
        Platform::Windows => {
            if stored.at("app.paste_method"@) == StoredView::Value("game_mode"@) && !is_admin {
                seq![WriteView { key: "app.paste_method"@, value: "shift_insert"@ }]
            } else {
                seq![]
            }
        },
        Platform::MacOs => {
            hotkey_migration(stored, "app.hotkey"@, legacy_main_hotkeys(), "Alt+C"@)
                + hotkey_migration(
                stored,
                "app.sequential_hotkey"@,
                legacy_sequential_hotkeys(),
                "Alt+V"@,
            ) + hotkey_migration(
                stored,
                "app.rich_paste_hotkey"@,
                legacy_rich_paste_hotkeys(),
                "Alt+Shift+V"@,
            ) + hotkey_migration(stored, "app.search_hotkey"@, legacy_search_hotkeys(), "Alt+F"@)
        },
        Platform::Other => seq![],
    }
}

/// The characters of texts.
pub open spec fn str_views(texts: Seq<&str>) -> Seq<Seq<char>> {
    texts.map_values(|text: &str| text@)
}

fn contains_text(texts: &Vec<&str>, text: &str) -> (res: bool)
    ensures
        res == str_views(texts@).contains(text@),
{
    let mut i: usize = 0;
    while i < texts.len()
        invariant
            i <= texts@.len(),
            forall|j: int| 0 <= j < i ==> (#[trigger] texts@[j])@ != text@,
        decreases texts@.len() - i,
    {
        if same_text(texts[i], text) {
            assert(str_views(texts@)[i as int] == text@);
            return true;
        }
        i += 1;
    }
    proof {
        if str_views(texts@).contains(text@) {
            let j = choose|j: int|
                0 <= j < str_views(texts@).len() && str_views(texts@)[j] == text@;
            assert(texts@[j]@ == text@);
        }
    }
    false
}

/// Adds the write that replaces an earlier default by the new one.
fn migrate_hotkey_default(
    stored: &StoredSettings,
    key: &str,
    legacy_defaults: &Vec<&str>,
    new_default: &str,
    writes: &mut Vec<SettingWrite>,
)
    ensures
        write_views(final(writes)@) == write_views(old(writes)@) + hotkey_migration(
            *stored,
            key@,
            str_views(legacy_defaults@),
            new_default@,
        ),
{
    if let Stored::Value(current) = stored.get(key) {
        let normalized = to_ascii_lowercase(trim(current.as_str()).as_str());
        if contains_text(legacy_defaults, normalized.as_str()) {
            let ghost before = writes@;
            let write = write_of(key, new_default);
            writes.push(write);
            assert(write_views(writes@) == write_views(before) + seq![write@]);
            return;
        }
    }
    assert(write_views(writes@) == write_views(writes@) + Seq::<WriteView>::empty());
}

/// The values to reset before the settings are read.
pub fn apply_startup_resets(platform: Platform, stored: &StoredSettings, is_admin: bool) -> (res: Vec<
    SettingWrite,
>)
    ensures
        write_views(res@) == startup_resets(platform, *stored, is_admin),
{
    let mut writes: Vec<SettingWrite> = Vec::new();
    match platform {
        Platform::Windows => {
            let paste_method = stored.get("app.paste_method").text_or("shift_insert");
            proof {
                reveal_strlit("shift_insert");
                reveal_strlit("game_mode");
                assert("shift_insert"@.len() != "game_mode"@.len());
            }
            if same_text(paste_method.as_str(), "game_mode") && !is_admin {
                let write = write_of("app.paste_method", "shift_insert");
                writes.push(write);
                assert(write_views(writes@) == seq![write@]);
            } else {
                assert(write_views(writes@) == Seq::<WriteView>::empty());
            }
        },
        Platform::MacOs => {
            let main = vec!["win+v", "command+shift+c", "command+v"];
            let sequential = vec!["command+v", "command+alt+v", "command+z"];
            let rich = vec!["ctrl+shift+z", "command+alt+shift+v", "command+shift+v"];
            let search = vec!["command+f", "command+alt+f"];
            assert(str_views(main@) == legacy_main_hotkeys());
            assert(str_views(sequential@) == legacy_sequential_hotkeys());
            assert(str_views(rich@) == legacy_rich_paste_hotkeys());
            assert(str_views(search@) == legacy_search_hotkeys());
            assert(write_views(writes@) == Seq::<WriteView>::empty());
            migrate_hotkey_default(stored, "app.hotkey", &main, "Alt+C", &mut writes);
            migrate_hotkey_default(stored, "app.sequential_hotkey", &sequential, "Alt+V", &mut writes);
            migrate_hotkey_default(stored, "app.rich_paste_hotkey", &rich, "Alt+Shift+V", &mut writes);
            migrate_hotkey_default(stored, "app.search_hotkey", &search, "Alt+F", &mut writes);
        },
        Platform::Other => {
            assert(write_views(writes@) == Seq::<WriteView>::empty());
        },
    }
    writes
}

/// All values that are stored before the settings are read: the resets, and on
/// macOS also that the window is not pinned, so that a stale pin does not keep it on
/// top.
pub open spec fn writes_before_loading(
    platform: Platform,
    stored: StoredSettings,
    is_admin: bool,
) -> Seq<WriteView> {
    startup_resets(platform, stored, is_admin) + if platform == Platform::MacOs {
        seq![WriteView { key: "app.window_pinned"@, value: "false"@ }]
    } else {
        seq![]
    }
}

/// The values to store before the settings are read.
pub fn startup_writes(platform: Platform, stored: &StoredSettings, is_admin: bool) -> (res: Vec<
    SettingWrite,
>)
    ensures
        write_views(res@) == writes_before_loading(platform, *stored, is_admin),
{
    let mut writes = apply_startup_resets(platform, stored, is_admin);
    let ghost resets = writes@;
    if platform == Platform::MacOs {
        let write = write_of("app.window_pinned", "false");
        writes.push(write);
        assert(write_views(writes@) == write_views(resets) + seq![write@]);
    } else {
        assert(write_views(writes@) == write_views(resets) + Seq::<WriteView>::empty());
    }
    writes
}

/// The value that a key is reset to before the settings are read, if it is.
pub open spec fn reset_to(
    platform: Platform,
    stored: StoredSettings,
    is_admin: bool,
    key: Seq<char>,
) -> Option<Seq<char>> {
    match platform {
        Platform::Windows => {
            if key == "app.paste_method"@ && stored.at(key) == StoredView::Value("game_mode"@)
                && !is_admin {
                Some("shift_insert"@)
            } else {
                None
            }
        },
        Platform::MacOs => {
            if key == "app.hotkey"@ && is_legacy(stored.at(key), legacy_main_hotkeys()) {
                Some("Alt+C"@)
            } else if key == "app.sequential_hotkey"@ && is_legacy(
                stored.at(key),
                legacy_sequential_hotkeys(),
            ) {
                Some("Alt+V"@)
            } else if key == "app.rich_paste_hotkey"@ && is_legacy(
                stored.at(key),
                legacy_rich_paste_hotkeys(),
            ) {
                Some("Alt+Shift+V"@)
            } else if key == "app.search_hotkey"@ && is_legacy(
                stored.at(key),
                legacy_search_hotkeys(),
            ) {
                Some("Alt+F"@)
            } else {
                None
            }
        },
        Platform::Other => None,
    }
}

proof fn lemma_after_one(before: StoredView, write: WriteView, key: Seq<char>)
    ensures
        after_writes(before, seq![write], key) == if write.key == key {
            StoredView::Value(write.value)
        } else {
            before
        },
        after_writes(before, seq![], key) == before,
{
    assert(seq![write].drop_last() == Seq::<WriteView>::empty());
    assert(after_writes(before, seq![write].drop_last(), key) == before);
}

proof fn lemma_after_migration(
    before: StoredView,
    stored: StoredSettings,
    migrated: Seq<char>,
    legacy: Seq<Seq<char>>,
    new_default: Seq<char>,
    key: Seq<char>,
)
    ensures
        after_writes(before, hotkey_migration(stored, migrated, legacy, new_default), key) == if key
            == migrated && is_legacy(stored.at(migrated), legacy) {
            StoredView::Value(new_default)
        } else {
            before
        },
{
    lemma_after_one(before, WriteView { key: migrated, value: new_default }, key);
}

/// The keys of the four hotkeys differ.
pub proof fn lemma_hotkey_keys_differ()
    ensures
        "app.hotkey"@ != "app.sequential_hotkey"@,
        "app.hotkey"@ != "app.rich_paste_hotkey"@,
        "app.hotkey"@ != "app.search_hotkey"@,
        "app.sequential_hotkey"@ != "app.rich_paste_hotkey"@,
        "app.sequential_hotkey"@ != "app.search_hotkey"@,
        "app.rich_paste_hotkey"@ != "app.search_hotkey"@,
{
    reveal_strlit("app.hotkey");
    reveal_strlit("app.sequential_hotkey");
    reveal_strlit("app.rich_paste_hotkey");
    reveal_strlit("app.search_hotkey");
    assert("app.hotkey"@.len() == 10);
    assert("app.search_hotkey"@.len() == 17);
    assert("app.sequential_hotkey"@.len() == 21);
    assert("app.rich_paste_hotkey"@.len() == 21);
    assert("app.sequential_hotkey"@[4] != "app.rich_paste_hotkey"@[4]);
}

/// The resets touch nothing but earlier defaults and a paste method that cannot
/// work: whatever else the user has stored is preserved.
pub proof fn lemma_resets_touch_only_defaults(
    platform: Platform,
    stored: StoredSettings,
    is_admin: bool,
    key: Seq<char>,
)
    ensures
        after_writes(stored.at(key), startup_resets(platform, stored, is_admin), key)
            == match reset_to(platform, stored, is_admin, key) {
            Some(value) => StoredView::Value(value),
            None => stored.at(key),
        },
{
    let before = stored.at(key);
    lemma_after_one(
        before,
        WriteView { key: "app.paste_method"@, value: "shift_insert"@ },
        key,
    );
    if platform == Platform::MacOs {
        lemma_hotkey_keys_differ();
        let main = hotkey_migration(stored, "app.hotkey"@, legacy_main_hotkeys(), "Alt+C"@);
        let sequential = hotkey_migration(
            stored,
            "app.sequential_hotkey"@,
            legacy_sequential_hotkeys(),
            "Alt+V"@,
        );
        let rich = hotkey_migration(
            stored,
            "app.rich_paste_hotkey"@,
            legacy_rich_paste_hotkeys(),
            "Alt+Shift+V"@,
        );
        let search = hotkey_migration(
            stored,
            "app.search_hotkey"@,
            legacy_search_hotkeys(),
            "Alt+F"@,
        );
        let first = after_writes(before, main, key);
        let second = after_writes(first, sequential, key);
        let third = after_writes(second, rich, key);
        lemma_after_writes_concat(before, main, sequential, key);
        lemma_after_writes_concat(before, main + sequential, rich, key);
        lemma_after_writes_concat(before, main + sequential + rich, search, key);
        lemma_after_migration(
            before,
            stored,
            "app.hotkey"@,
            legacy_main_hotkeys(),
            "Alt+C"@,
            key,
        );
        lemma_after_migration(
            first,
            stored,
            "app.sequential_hotkey"@,
            legacy_sequential_hotkeys(),
            "Alt+V"@,
            key,
        );
        lemma_after_migration(
            second,
            stored,
            "app.rich_paste_hotkey"@,
            legacy_rich_paste_hotkeys(),
            "Alt+Shift+V"@,
            key,
        );
        lemma_after_migration(
            third,
            stored,
            "app.search_hotkey"@,
            legacy_search_hotkeys(),
            "Alt+F"@,
            key,
        );
    }
}

proof fn lemma_new_defaults_are_not_legacy()
    ensures
        !is_legacy(StoredView::Value("Alt+C"@), legacy_main_hotkeys()),
        !is_legacy(StoredView::Value("Alt+V"@), legacy_sequential_hotkeys()),
        !is_legacy(StoredView::Value("Alt+Shift+V"@), legacy_rich_paste_hotkeys()),
        !is_legacy(StoredView::Value("Alt+F"@), legacy_search_hotkeys()),
{
    reveal_strlit("Alt+C");
    reveal_strlit("Alt+V");
    reveal_strlit("Alt+Shift+V");
    reveal_strlit("Alt+F");
    reveal_strlit("win+v");
    reveal_strlit("command+shift+c");
    reveal_strlit("command+v");
    reveal_strlit("command+alt+v");
    reveal_strlit("command+z");
    reveal_strlit("ctrl+shift+z");
    reveal_strlit("command+alt+shift+v");
    reveal_strlit("command+shift+v");
    reveal_strlit("command+f");
    reveal_strlit("command+alt+f");
    reveal_with_fuel(crate::text::trimmed_start, 2);
    reveal_with_fuel(crate::text::trimmed_end, 2);
    assert(lowered(trimmed("Alt+C"@))[0] == 'a');
    assert(lowered(trimmed("Alt+V"@))[0] == 'a');
    assert(lowered(trimmed("Alt+Shift+V"@))[0] == 'a');
    assert(lowered(trimmed("Alt+F"@))[0] == 'a');
    assert("win+v"@[0] == 'w');
    assert("command+shift+c"@[0] == 'c');
    assert("command+v"@[0] == 'c');
    assert("command+alt+v"@[0] == 'c');
    assert("command+z"@[0] == 'c');
    assert("ctrl+shift+z"@[0] == 'c');
    assert("command+alt+shift+v"@[0] == 'c');
    assert("command+shift+v"@[0] == 'c');
    assert("command+f"@[0] == 'c');
    assert("command+alt+f"@[0] == 'c');
    lemma_first_letters(legacy_main_hotkeys());
    lemma_first_letters(legacy_sequential_hotkeys());
    lemma_first_letters(legacy_rich_paste_hotkeys());
    lemma_first_letters(legacy_search_hotkeys());
}

proof fn lemma_first_letters(legacy: Seq<Seq<char>>)
    requires
        forall|i: int| 0 <= i < legacy.len() ==> (#[trigger] legacy[i])[0] != 'a',
    ensures
        forall|text: Seq<char>| #[trigger] legacy.contains(text) ==> text[0] != 'a',
{
}

/// Once the resets are stored, a later start has nothing to reset.
pub proof fn lemma_resets_happen_once(
    platform: Platform,
    stored: StoredSettings,
    is_admin: bool,
    later: StoredSettings,
)
    requires
        forall|key: Seq<char>| #[trigger]
            later.at(key) == after_writes(
                stored.at(key),
                startup_resets(platform, stored, is_admin),
                key,
            ),
    ensures
        startup_resets(platform, later, is_admin) == Seq::<WriteView>::empty(),
{
    assert forall|key: Seq<char>| #[trigger] later.at(key) == match reset_to(
        platform,
        stored,
        is_admin,
        key,
    ) {
        Some(value) => StoredView::Value(value),
        None => stored.at(key),
    } by {
        lemma_resets_touch_only_defaults(platform, stored, is_admin, key);
    }
    match platform {
        Platform::Windows => {
            reveal_strlit("shift_insert");
            reveal_strlit("game_mode");
            assert("shift_insert"@.len() != "game_mode"@.len());
        },
        Platform::MacOs => {
            lemma_hotkey_keys_differ();
            lemma_new_defaults_are_not_legacy();
            assert(!is_legacy(later.at("app.hotkey"@), legacy_main_hotkeys()));
            assert(!is_legacy(later.at("app.sequential_hotkey"@), legacy_sequential_hotkeys()));
            assert(!is_legacy(later.at("app.rich_paste_hotkey"@), legacy_rich_paste_hotkeys()));
            assert(!is_legacy(later.at("app.search_hotkey"@), legacy_search_hotkeys()));
        },
        Platform::Other => {},
    }
}

/// On macOS the window never starts pinned, whatever was stored.
pub proof fn lemma_macos_starts_unpinned(
    stored: StoredSettings,
    is_admin: bool,
    later: StoredSettings,
    settings: StartupSettings,
    volume: Option<u64>,
)
    requires
        forall|key: Seq<char>| #[trigger]
            later.at(key) == after_writes(
                stored.at(key),
                writes_before_loading(Platform::MacOs, stored, is_admin),
                key,
            ),
        settings.are_of(later, volume),
    ensures
        !settings.window_pinned,
{
    reveal_strlit("true");
    reveal_strlit("false");
    assert("true"@.len() != "false"@.len());
    assert(later.at("app.window_pinned"@) == StoredView::Value("false"@));
}

} // verus!
