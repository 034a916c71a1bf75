//! What the shell does when it starts: where its data lies, what state it keeps,
//! how its window appears, and which services run.

use vstd::prelude::*;

use crate::decimal::{parse_u16, parsed};
use crate::edge_dock::{dock_name, dock_named, lemma_dock_token_reads_back, parse_dock_token};
use crate::plan::{flags_after_all, lemma_flags_after_concat, EdgeFlags, WindowAction};
use crate::platform::Platform;
use crate::settings_store::{Stored, StoredSettings, StoredView};
use crate::startup_settings::{
    agree_on, lemma_agree_on_groups, service_keys, startup_key_names, StartupSettings,
};
use crate::text::{
    all_trimmed, ends_with, has_prefix, has_suffix, lines_of, lines_trimmed, lowered, pieces,
    same_text, split_trimmed, starts_with, to_ascii_lowercase, trim, trimmed, views,
};

verus! {

/// One step of the start. The steps are carried out in order; finding the data
/// directory and opening the database end the start where they fail.
#[derive(Clone, Copy, Debug, PartialEq, Eq, Structural)]
pub enum InitStep {
    /// Registers the hotkeys anew whenever the machine wakes up.
    WatchWake,
    PublishHandle,
    ResolveDataDir,
    StartLog,
    StartEncryption,
    OpenDatabase,
    MigrateCiphertexts,
    /// Stores the values that are reset at every start.
    StoreResets,
    LoadSettings,
    PublishState,
    StartEncryptionQueue,
    AlignSensitiveItems,
    ApplyDockIcon,
    SetupMainWindow,
    /// Sets the directory of the application's cache as the one for sound files.
    SetSoundDir,
    StartServices,
    SetupTray,
    ApplyTheme,
    AcceptDrops,
    InstallHooks,
    WatchTaskbar,
}

/// The steps of the start. A portable build has no earlier encryption to migrate, and
/// only macOS keeps sound files.
pub open spec fn init_steps(platform: Platform, portable: bool) -> Seq<InitStep> {
    (if platform == Platform::MacOs {
        seq![InitStep::WatchWake]
    } else {
        seq![]
    }) + seq![
        InitStep::PublishHandle,
        InitStep::ResolveDataDir,
        InitStep::StartLog,
        InitStep::StartEncryption,
        InitStep::OpenDatabase,
    ] + (if portable {
        seq![]
    } else {
        seq![InitStep::MigrateCiphertexts]
    }) + seq![
        InitStep::StoreResets,
        InitStep::LoadSettings,
        InitStep::PublishState,
        InitStep::StartEncryptionQueue,
        InitStep::AlignSensitiveItems,
        InitStep::ApplyDockIcon,
        InitStep::SetupMainWindow,
    ] + (if platform == Platform::MacOs {
        seq![InitStep::SetSoundDir]
    } else {
        seq![]
    }) + seq![InitStep::StartServices, InitStep::SetupTray, InitStep::ApplyTheme] + (if platform == Platform::Windows {
        seq![InitStep::AcceptDrops, InitStep::InstallHooks, InitStep::WatchTaskbar]
    } else {
        seq![]
    })
}

/// The steps of the start.
pub fn init(platform: Platform, portable: bool) -> (res: Vec<InitStep>)
    ensures
        res@ == init_steps(platform, portable),
{
    let mut steps: Vec<InitStep> = Vec::new();
    if platform == Platform::MacOs {
        steps.push(InitStep::WatchWake);
    }
    steps.push(InitStep::PublishHandle);
    steps.push(InitStep::ResolveDataDir);
    steps.push(InitStep::StartLog);
    steps.push(InitStep::StartEncryption);
    steps.push(InitStep::OpenDatabase);
    if !portable {
        steps.push(InitStep::MigrateCiphertexts);
    }
    steps.push(InitStep::StoreResets);
    steps.push(InitStep::LoadSettings);
    steps.push(InitStep::PublishState);
    steps.push(InitStep::StartEncryptionQueue);
    steps.push(InitStep::AlignSensitiveItems);
    steps.push(InitStep::ApplyDockIcon);
    steps.push(InitStep::SetupMainWindow);
    if platform == Platform::MacOs {
        steps.push(InitStep::SetSoundDir);
    }
    steps.push(InitStep::StartServices);
    steps.push(InitStep::SetupTray);
    steps.push(InitStep::ApplyTheme);
    if platform == Platform::Windows {
        steps.push(InitStep::AcceptDrops);
        steps.push(InitStep::InstallHooks);
        steps.push(InitStep::WatchTaskbar);
    }
    steps
}

/// The settings are read after the database is open and the resets are stored, and
/// before anything is set up from them.
pub proof fn lemma_settings_are_read_in_order(
    platform: Platform,
    portable: bool,
    i: int,
    j: int,
)
    requires
        0 <= i < j < init_steps(platform, portable).len(),
    ensures
        ({
            let steps = init_steps(platform, portable);
            &&& steps[i] == InitStep::LoadSettings ==> steps[j] != InitStep::OpenDatabase
                && steps[j] != InitStep::StoreResets && steps[j] != InitStep::LoadSettings
            &&& steps[j] == InitStep::LoadSettings ==> steps[i] != InitStep::PublishState
                && steps[i] != InitStep::SetupMainWindow && steps[i] != InitStep::StartServices
        }),
{
}

/// On macOS the directory for sound files is set exactly once, and before any service
/// starts that could need a sound; elsewhere it is never set.
pub proof fn lemma_sound_dir_is_set_before_services(
    platform: Platform,
    portable: bool,
    i: int,
    j: int,
)
    requires
        0 <= i < j < init_steps(platform, portable).len(),
    ensures
        ({
            let steps = init_steps(platform, portable);
            &&& steps.contains(InitStep::SetSoundDir) <==> platform == Platform::MacOs
            &&& steps[i] == InitStep::StartServices ==> steps[j] != InitStep::SetSoundDir
            &&& steps[i] == InitStep::SetSoundDir ==> steps[j] != InitStep::SetSoundDir
        }),
{
    let steps = init_steps(platform, portable);
    if platform == Platform::MacOs {
        let at: int = if portable {
            13
        } else {
            14
        };
        assert(steps[at] == InitStep::SetSoundDir);
    }
}

/// Where the data lies.
#[derive(Debug)]
pub enum DataDir {
    /// In the system's directory for application data.
    Default,
    /// In a directory that the user chose.
    Custom(String),
    /// In the folder `data` next to the program.
    Portable,
}

/// Where the data lies, by the characters of a path.
pub enum DataDirView {
    Default,
    Custom(Seq<char>),
    Portable,
}

impl View for DataDir {
    type V = DataDirView;

    open spec fn view(&self) -> DataDirView {
        match *self {
            DataDir::Default => DataDirView::Default,
            DataDir::Custom(path) => DataDirView::Custom(path@),
            DataDir::Portable => DataDirView::Portable,
        }
    }
}

/// The directory that the file `datapath.txt` names, if any: an application bundle
/// does not count.
pub open spec fn redirect_path(content: Option<Seq<char>>) -> Option<Seq<char>> {
    match content {
        None => None,
        Some(text) => {
            let path = trimmed(text);
            if path.len() == 0 || has_suffix(lowered(path), ".app"@) {
                None
            } else {
                Some(path)
            }
        },
    }
}

/// The characters of an optional text.
pub open spec fn text_view(text: Option<String>) -> Option<Seq<char>> {
    match text {
        Some(text) => Some(text@),
        None => None,
    }
}

/// The directory that the file `datapath.txt` names, given what the file holds, if
/// it could be read.
pub fn redirect_target(content: &Option<String>) -> (res: Option<String>)
    ensures
        text_view(res) == redirect_path(text_view(*content)),
{
    match content {
        None => None,
        Some(text) => {
            let path = trim(text.as_str());
            if path.as_str().unicode_len() == 0 || ends_with(
                to_ascii_lowercase(path.as_str()).as_str(),
                ".app",
            ) {
                None
            } else {
                Some(path)
            }
        },
    }
}

/// Decides where the data lies. `custom_is_dir` is whether the directory that the
/// redirect file names exists, `portable_is_dir` whether the one next to the program
/// does; the latter comes first.
pub fn resolve_data_dir(
    content: &Option<String>,
    custom_is_dir: bool,
    portable_is_dir: bool,
) -> (res: DataDir)
    ensures
        res@ == if portable_is_dir {
            DataDirView::Portable
        } else {
            match redirect_path(text_view(*content)) {
                Some(path) if custom_is_dir => DataDirView::Custom(path),
                _ => DataDirView::Default,
            }
        },
{
    if portable_is_dir {
        return DataDir::Portable;
    }
    match redirect_target(content) {
        Some(path) => if custom_is_dir {
            DataDir::Custom(path)
        } else {
            DataDir::Default
        },
        None => DataDir::Default,
    }
}

/// Whether a temporary file is left over from an earlier run.
pub fn is_leftover(name: &str) -> (res: bool)
    ensures
        res == has_prefix(name@, "TieZ_Clip_"@),
{
    starts_with(name, "TieZ_Clip_")
}

/// The settings as the running program keeps them.
#[derive(Debug)]
pub struct SettingsState {
    pub deduplicate: bool,
    pub persistent: bool,
    pub file_server_auto_close: bool,
    pub theme: String,
    pub capture_files: bool,
    pub capture_rich_text: bool,
    pub rich_text_snapshot_preview: bool,
    pub auto_copy_file: bool,
    pub silent_start: bool,
    pub delete_after_paste: bool,
    pub privacy_protection: bool,
    pub privacy_protection_kinds: Vec<String>,
    pub privacy_protection_custom_rules: Vec<String>,
    pub cleanup_rules: String,
    pub app_cleanup_policies: String,
    pub sequential_mode: bool,
    pub sequential_paste_hotkey: String,
    pub rich_paste_hotkey: String,
    pub search_hotkey: String,
    pub quick_paste_modifier: String,
    pub sound_enabled: bool,
    pub paste_sound_enabled: bool,
    pub hide_tray_icon: bool,
    pub hide_dock_icon: bool,
    pub follow_mouse: bool,
    pub edge_docking: bool,
    pub arrow_key_selection: bool,
    pub main_hotkey: String,
    /// A fraction between 0 and 1, as a double.
    pub sound_volume: u64,
}

impl SettingsState {
    /// Whether this is the state that settings lead to: each value as it is, the
    /// kinds to protect split at commas, and the custom rules split into lines.
    pub open spec fn is_of(self, s: StartupSettings) -> bool {
        &&& self.deduplicate == s.deduplicate
        &&& self.persistent == s.persistent
        &&& self.file_server_auto_close == s.auto_close_server
        &&& self.theme@ == s.theme@
        &&& self.capture_files == s.capture_files
        &&& self.capture_rich_text == s.capture_rich_text
        &&& self.rich_text_snapshot_preview == s.rich_text_snapshot_preview
        &&& self.auto_copy_file == s.auto_copy_file
        &&& self.silent_start == s.silent_start
        &&& self.delete_after_paste == s.delete_after_paste
        &&& self.privacy_protection == s.privacy_protection
        &&& views(self.privacy_protection_kinds@) == all_trimmed(pieces(s.privacy_kinds@, ','))
        &&& views(self.privacy_protection_custom_rules@) == all_trimmed(lines_of(s.privacy_custom@))
        &&& self.cleanup_rules@ == s.cleanup_rules@
        &&& self.app_cleanup_policies@ == s.app_cleanup_policies@
        &&& self.sequential_mode == s.sequential_mode
        &&& self.sequential_paste_hotkey@ == s.sequential_hotkey@
        &&& self.rich_paste_hotkey@ == s.rich_paste_hotkey@
        &&& self.search_hotkey@ == s.search_hotkey@
        &&& self.quick_paste_modifier@ == s.quick_paste_modifier@
        &&& self.sound_enabled == s.sound_enabled
        &&& self.paste_sound_enabled == s.paste_sound_enabled
        &&& self.hide_tray_icon == s.hide_tray_icon
        &&& self.hide_dock_icon == s.hide_dock_icon
        &&& self.follow_mouse == s.follow_mouse
        &&& self.edge_docking == s.edge_docking
        &&& self.arrow_key_selection == s.arrow_key_selection
        &&& self.main_hotkey@ == s.main_hotkey@
        &&& self.sound_volume == s.sound_volume
    }
}

/// The state that settings lead to.
pub fn setup_state(s: &StartupSettings) -> (res: SettingsState)
    ensures
        res.is_of(*s),
{
    SettingsState {
        deduplicate: s.deduplicate,
        persistent: s.persistent,
        file_server_auto_close: s.auto_close_server,
        theme: s.theme.clone(),
        capture_files: s.capture_files,
        capture_rich_text: s.capture_rich_text,
        rich_text_snapshot_preview: s.rich_text_snapshot_preview,
        auto_copy_file: s.auto_copy_file,
        silent_start: s.silent_start,
        delete_after_paste: s.delete_after_paste,
        privacy_protection: s.privacy_protection,
        privacy_protection_kinds: split_trimmed(s.privacy_kinds.as_str(), ','),
        privacy_protection_custom_rules: lines_trimmed(s.privacy_custom.as_str()),
        cleanup_rules: s.cleanup_rules.clone(),
        app_cleanup_policies: s.app_cleanup_policies.clone(),
        sequential_mode: s.sequential_mode,
        sequential_paste_hotkey: s.sequential_hotkey.clone(),
        rich_paste_hotkey: s.rich_paste_hotkey.clone(),
        search_hotkey: s.search_hotkey.clone(),
        quick_paste_modifier: s.quick_paste_modifier.clone(),
        sound_enabled: s.sound_enabled,
        paste_sound_enabled: s.paste_sound_enabled,
        hide_tray_icon: s.hide_tray_icon,
        hide_dock_icon: s.hide_dock_icon,
        follow_mouse: s.follow_mouse,
        edge_docking: s.edge_docking,
        arrow_key_selection: s.arrow_key_selection,
        main_hotkey: s.main_hotkey.clone(),
        sound_volume: s.sound_volume,
    }
}

/// Whether the application shows an icon in the system's dock, where there is one.
pub fn apply_initial_dock_visibility(platform: Platform, s: &StartupSettings) -> (res: Option<bool>)
    ensures
        res == if platform == Platform::MacOs {
            Some(!s.hide_dock_icon)
        } else {
            None
        },
{
    match platform {
        Platform::MacOs => Some(!s.hide_dock_icon),
        _ => None,
    }
}

/// The smallest width that the window is restored to.
pub const MIN_RESTORED_WIDTH: u32 = 360;

/// The smallest height that the window is restored to.
pub const MIN_RESTORED_HEIGHT: u32 = 240;

/// How often the window is moved to its dock position again after the start.
pub const DOCK_RETRIES: u32 = 6;

/// The time between these moves, in milliseconds.
pub const DOCK_RETRY_MS: u64 = 80;

/// The times, one after the other, after which the window joins all spaces again.
pub fn space_retry_delays() -> (res: Vec<u64>)
    ensures
        res@ == seq![50u64, 200, 600, 1200],
{
    vec![50, 200, 600, 1200]
}

/// The edge that the window is docked to when it starts.
pub open spec fn restored_dock(s: StartupSettings) -> i32 {
    if s.edge_docking {
        dock_named(s.last_edge_dock@)
    } else {
        0
    }
}

/// Whether the command line asks for a start in the background.
pub open spec fn in_background(args: Seq<String>) -> bool {
    views(args).contains("--autostart"@) || views(args).contains("--minimized"@)
}

/// Whether the window is shown at the start. On Windows a silent start hides it too.
pub open spec fn shows_main(platform: Platform, s: StartupSettings, args: Seq<String>) -> bool {
    !in_background(args) && (platform != Platform::Windows || !s.silent_start)
}

/// The size that the window is restored to, if any.
pub open spec fn size_steps(s: StartupSettings) -> Seq<WindowAction> {
    match (s.window_width, s.window_height) {
        (Some(width), Some(height)) if width >= MIN_RESTORED_WIDTH && height
            >= MIN_RESTORED_HEIGHT => seq![WindowAction::Resize { width, height }],
        _ => seq![],
    }
}

/// How the window is prepared before it is shown.
pub open spec fn prepare_steps(platform: Platform, pinned: bool) -> Seq<WindowAction> {
    seq![
        WindowAction::AlwaysOnTop(pinned),
        match platform {
            Platform::Windows => WindowAction::Focusable(!pinned),
            Platform::MacOs => WindowAction::JoinAllSpaces,
            Platform::Other => WindowAction::Focusable(true),
        },
    ]
}

/// How the window is shown. One that was docked when the application last quit goes
/// back to its edge, and gets no focus, which would pull it on screen.
pub open spec fn show_steps(platform: Platform, dock: i32) -> Seq<WindowAction> {
    match platform {
        Platform::Windows => seq![WindowAction::Show],
        Platform::Other => {
            seq![WindowAction::Focusable(true), WindowAction::Show, WindowAction::Focus]
        },
        Platform::MacOs => {
            seq![
                WindowAction::Show,
                WindowAction::MakePanel,
                WindowAction::JoinAllSpaces,
                WindowAction::RepeatJoinAllSpaces,
            ] + if dock != 0 {
                seq![
                    WindowAction::SetDock(dock),
                    WindowAction::SetHidden(true),
                    WindowAction::AlwaysOnTop(true),
                    WindowAction::DockPosition(dock),
                    WindowAction::RepeatDockPosition(dock),
                ]
            } else {
                seq![WindowAction::Focus]
            }
        },
    }
}

/// How the window is made ready where it is not shown yet.
pub open spec fn background_steps(platform: Platform) -> Seq<WindowAction> {
    match platform {
        Platform::Windows => seq![],
        Platform::Other => seq![WindowAction::Focusable(true)],
        Platform::MacOs => seq![WindowAction::MakePanel],
    }
}

/// The plan for the main window at the start.
pub open spec fn main_window_plan(
    platform: Platform,
    s: StartupSettings,
    window_exists: bool,
    args: Seq<String>,
) -> Seq<WindowAction> {
    seq![WindowAction::SetPinned(s.window_pinned)] + if !window_exists {
        seq![]
    } else {
        size_steps(s) + prepare_steps(platform, s.window_pinned) + if shows_main(
            platform,
            s,
            args,
        ) {
            show_steps(platform, restored_dock(s)) + seq![WindowAction::OpenDevtools]
        } else {
            background_steps(platform)
        }
    }
}

fn contains_arg(args: &Vec<String>, wanted: &str) -> (res: bool)
    ensures
        res == views(args@).contains(wanted@),
{
    let mut i: usize = 0;
    while i < args.len()
        invariant
            i <= args@.len(),
            forall|j: int| 0 <= j < i ==> (#[trigger] args@[j])@ != wanted@,
        decreases args@.len() - i,
    {
        if same_text(args[i].as_str(), wanted) {
            assert(views(args@)[i as int] == wanted@);
            return true;
        }
        i += 1;
    }
    proof {
        if views(args@).contains(wanted@) {
            let j = choose|j: int| 0 <= j < views(args@).len() && views(args@)[j] == wanted@;
            assert(args@[j]@ == wanted@);
        }
    }
    false
}

fn show_main(platform: Platform, dock: i32) -> (res: Vec<WindowAction>)
    ensures
        res@ == show_steps(platform, dock),
{
    match platform {
        Platform::Windows => vec![WindowAction::Show],
        Platform::Other => {
            vec![WindowAction::Focusable(true), WindowAction::Show, WindowAction::Focus]
        },
        Platform::MacOs => {
            let mut plan = vec![
                WindowAction::Show,
                WindowAction::MakePanel,
                WindowAction::JoinAllSpaces,
                WindowAction::RepeatJoinAllSpaces,
            ];
            if dock != 0 {
                plan.push(WindowAction::SetDock(dock));
                plan.push(WindowAction::SetHidden(true));
                plan.push(WindowAction::AlwaysOnTop(true));
                plan.push(WindowAction::DockPosition(dock));
                plan.push(WindowAction::RepeatDockPosition(dock));
            } else {
                plan.push(WindowAction::Focus);
            }
            plan
        },
    }
}

/// The plan for the main window at the start. `args` is the command line.
pub fn setup_main_window(
    platform: Platform,
    s: &StartupSettings,
    window_exists: bool,
    args: &Vec<String>,
) -> (res: Vec<WindowAction>)
    ensures
        res@ == main_window_plan(platform, *s, window_exists, args@),
{
    let pinned = s.window_pinned;
    let mut plan: Vec<WindowAction> = vec![WindowAction::SetPinned(pinned)];
    if !window_exists {
        return plan;
    }
    let dock: i32 = if s.edge_docking {
        parse_dock_token(s.last_edge_dock.as_str())
    } else {
        0
    };
    if let (Some(width), Some(height)) = (s.window_width, s.window_height) {
        if width >= MIN_RESTORED_WIDTH && height >= MIN_RESTORED_HEIGHT {
            plan.push(WindowAction::Resize { width, height });
        }
    }
    plan.push(WindowAction::AlwaysOnTop(pinned));
    match platform {
        Platform::Windows => plan.push(WindowAction::Focusable(!pinned)),
        Platform::MacOs => plan.push(WindowAction::JoinAllSpaces),
        Platform::Other => plan.push(WindowAction::Focusable(true)),
    }
    assert(plan@ == seq![WindowAction::SetPinned(pinned)] + (size_steps(*s) + prepare_steps(
        platform,
        pinned,
    )));
    let autostart = contains_arg(args, "--autostart") || contains_arg(args, "--minimized");
    let silent = platform == Platform::Windows && s.silent_start;
    if !autostart && !silent {
        let mut shown = show_main(platform, dock);
        plan.append(&mut shown);
        plan.push(WindowAction::OpenDevtools);
    } else {
        match platform {
            Platform::Windows => {},
            Platform::Other => plan.push(WindowAction::Focusable(true)),
            Platform::MacOs => plan.push(WindowAction::MakePanel),
        }
    }
    plan
}

/// A start in the background never shows the window, and neither does a silent one
/// on Windows.
pub proof fn lemma_background_start_stays_hidden(
    platform: Platform,
    s: StartupSettings,
    window_exists: bool,
    args: Seq<String>,
    i: int,
)
    requires
        in_background(args) || (platform == Platform::Windows && s.silent_start),
        0 <= i < main_window_plan(platform, s, window_exists, args).len(),
    ensures
        main_window_plan(platform, s, window_exists, args)[i] != WindowAction::Show,
        main_window_plan(platform, s, window_exists, args)[i] != WindowAction::Focus,
{
}

/// A window that was docked when the application quit goes back to its edge without
/// the focus, and the remembered state agrees with that.
pub proof fn lemma_docked_start_stays_tucked(
    s: StartupSettings,
    args: Seq<String>,
    flags: EdgeFlags,
    i: int,
)
    requires
        restored_dock(s) != 0,
        shows_main(Platform::MacOs, s, args),
        0 <= i < main_window_plan(Platform::MacOs, s, true, args).len(),
    ensures
        main_window_plan(Platform::MacOs, s, true, args)[i] != WindowAction::Focus,
        flags_after_all(flags, main_window_plan(Platform::MacOs, s, true, args)) == (EdgeFlags {
            hidden: true,
            dock: restored_dock(s),
        }),
        flags_after_all(flags, main_window_plan(Platform::MacOs, s, true, args)).consistent(),
{
    let dock = restored_dock(s);
    let before = seq![WindowAction::SetPinned(s.window_pinned)] + (size_steps(s) + prepare_steps(
        Platform::MacOs,
        s.window_pinned,
    )) + seq![
        WindowAction::Show,
        WindowAction::MakePanel,
        WindowAction::JoinAllSpaces,
        WindowAction::RepeatJoinAllSpaces,
    ];
    let flagged = seq![WindowAction::SetDock(dock), WindowAction::SetHidden(true)];
    let after = seq![
        WindowAction::AlwaysOnTop(true),
        WindowAction::DockPosition(dock),
        WindowAction::RepeatDockPosition(dock),
        WindowAction::OpenDevtools,
    ];
    assert(main_window_plan(Platform::MacOs, s, true, args) =~= before + flagged + after);
    lemma_flags_after_concat(flags, before, flagged);
    lemma_flags_after_concat(flags, before + flagged, after);
    let middle = flags_after_all(flags, before);
    lemma_quiet_plan_keeps_flags(flags_after_all(flags, before + flagged), after);
    assert(flagged.drop_last() =~= seq![WindowAction::SetDock(dock)]);
    assert(flagged.drop_last().drop_last() =~= seq![]);
    assert(flags_after_all(middle, flagged.drop_last().drop_last()) == middle);
    assert(flags_after_all(middle, flagged.drop_last()) == (EdgeFlags { dock, ..middle }));
    assert(flags_after_all(middle, flagged) == (EdgeFlags { hidden: true, dock }));
}

proof fn lemma_quiet_plan_keeps_flags(flags: EdgeFlags, plan: Seq<WindowAction>)
    requires
        forall|i: int|
            0 <= i < plan.len() ==> !((#[trigger] plan[i]) is SetHidden) && !(plan[i] is SetDock),
    ensures
        flags_after_all(flags, plan) == flags,
    decreases plan.len(),
{
    if plan.len() > 0 {
        lemma_quiet_plan_keeps_flags(flags, plan.drop_last());
    }
}

/// Where the window starts without a dock position, nothing is remembered of one.
pub proof fn lemma_undocked_start_keeps_flags(
    platform: Platform,
    s: StartupSettings,
    window_exists: bool,
    args: Seq<String>,
    flags: EdgeFlags,
)
    requires
        restored_dock(s) == 0 || platform != Platform::MacOs || !shows_main(platform, s, args)
            || !window_exists,
    ensures
        flags_after_all(flags, main_window_plan(platform, s, window_exists, args)) == flags,
{
    lemma_quiet_plan_keeps_flags(flags, main_window_plan(platform, s, window_exists, args));
}

/// The dock position that was stored when the window was tucked away is the one
/// that the next start restores.
pub proof fn lemma_dock_survives_restart(
    stored: StoredSettings,
    volume: Option<u64>,
    settings: StartupSettings,
    dock: i32,
)
    requires
        0 <= dock <= 3,
        stored.at("app.last_edge_dock"@) == StoredView::Value(dock_name(dock)),
        settings.are_of(stored, volume),
        settings.edge_docking,
    ensures
        restored_dock(settings) == dock,
{
    lemma_dock_token_reads_back(dock);
}

/// A service to start.
#[derive(Clone, Copy, Debug, PartialEq, Eq, Structural)]
pub enum ServiceStep {
    TrackWindows,
    /// Listens for pastes on the keyboard.
    WatchPasteKey,
    WatchClipboard,
    /// Registers the sounds at a volume, given as a double.
    PreloadSounds(u64),
    StartMessageQueue,
    StartCloudSync,
    WatchEdges,
    StartFileServer { port: Option<u16> },
    RunAnalytics,
    /// Publishes the hotkey that opens the window.
    PublishHotkey,
    RegisterHotkeys,
    /// Takes the system's own clipboard shortcut over.
    TakeOverWinV,
}

/// The file server step, if the server is switched on. A port that is no number
/// leaves the choice to the server.
pub open spec fn file_server_steps(stored: StoredSettings) -> Seq<ServiceStep> {
    if stored.at("file_server_enabled"@) == StoredView::Value("true"@) {
        seq![
            ServiceStep::StartFileServer {
                port: match stored.at("file_server_port"@) {
                    StoredView::Value(text) => match parsed(text, u16::MAX as nat) {
                        Some(port) => Some(port as u16),
                        None => None,
                    },
                    _ => None,
                },
            },
        ]
    } else {
        seq![]
    }
}

/// The services that are started, in order. `win_v_taken` is whether the system's
/// clipboard shortcut is taken over already.
pub open spec fn service_steps(
    platform: Platform,
    s: StartupSettings,
    stored: StoredSettings,
    win_v_taken: bool,
) -> Seq<ServiceStep> {
    (match platform {
        Platform::MacOs => seq![ServiceStep::TrackWindows, ServiceStep::WatchPasteKey],
        Platform::Windows => seq![ServiceStep::TrackWindows],
        Platform::Other => seq![],
    }) + seq![ServiceStep::WatchClipboard] + (if s.sound_enabled {
        seq![ServiceStep::PreloadSounds(s.sound_volume)]
    } else {
        seq![]
    }) + seq![ServiceStep::StartMessageQueue, ServiceStep::StartCloudSync] + (if platform
        != Platform::Other {
        seq![ServiceStep::WatchEdges]
    } else {
        seq![]
    }) + file_server_steps(stored) + seq![
        ServiceStep::RunAnalytics,
        ServiceStep::PublishHotkey,
        ServiceStep::RegisterHotkeys,
    ] + (if platform == Platform::Windows && stored.at("app.use_win_v_shortcut"@)
        == StoredView::Value("true"@) && !win_v_taken {
        seq![ServiceStep::TakeOverWinV]
    } else {
        seq![]
    })
}

fn port_of(value: &Stored) -> (res: Option<u16>)
    ensures
        res == match value@ {
            StoredView::Value(text) => match parsed(text, u16::MAX as nat) {
                Some(port) => Some(port as u16),
                None => None,
            },
            _ => None,
        },
{
    match value {
        Stored::Value(text) => parse_u16(text.as_str()),
        _ => None,
    }
}

/// The services to start.
pub fn start_services(
    platform: Platform,
    s: &StartupSettings,
    stored: &StoredSettings,
    win_v_taken: bool,
) -> (res: Vec<ServiceStep>)
    ensures
        res@ == service_steps(platform, *s, *stored, win_v_taken),
{
    let mut steps: Vec<ServiceStep> = Vec::new();
    match platform {
        Platform::MacOs => {
            steps.push(ServiceStep::TrackWindows);
            steps.push(ServiceStep::WatchPasteKey);
        },
        Platform::Windows => {
            steps.push(ServiceStep::TrackWindows);
        },
        Platform::Other => {},
    }
    steps.push(ServiceStep::WatchClipboard);
    if s.sound_enabled {
        steps.push(ServiceStep::PreloadSounds(s.sound_volume));
    }
    steps.push(ServiceStep::StartMessageQueue);
    steps.push(ServiceStep::StartCloudSync);
    if platform != Platform::Other {
        steps.push(ServiceStep::WatchEdges);
    }
    if stored.get("file_server_enabled").flag_or(false) {
        let port: Option<u16> = port_of(&stored.get("file_server_port"));
        steps.push(ServiceStep::StartFileServer { port });
    }
    steps.push(ServiceStep::RunAnalytics);
    steps.push(ServiceStep::PublishHotkey);
    steps.push(ServiceStep::RegisterHotkeys);
    if platform == Platform::Windows && stored.get("app.use_win_v_shortcut").flag_or(false)
        && !win_v_taken {
        steps.push(ServiceStep::TakeOverWinV);
    }
    steps
}

/// The services depend on nothing but the settings and the values under the keys that
/// the start reads.
pub proof fn lemma_services_read_startup_keys(
    platform: Platform,
    s: StartupSettings,
    a: StoredSettings,
    b: StoredSettings,
    win_v_taken: bool,
)
    requires
        agree_on(a, b, startup_key_names()),
    ensures
        service_steps(platform, s, a, win_v_taken) == service_steps(platform, s, b, win_v_taken),
{
    lemma_agree_on_groups(a, b);
    let keys = service_keys();
    assert(keys[5] == "file_server_enabled"@);
    assert(keys[6] == "file_server_port"@);
    assert(keys[7] == "app.use_win_v_shortcut"@);
}

/// What the tray icon does.
#[derive(Clone, Copy, Debug, PartialEq, Eq, Structural)]
pub enum TrayAction {
    Nothing,
    ShowWindow,
    Quit,
}

/// What choosing an entry of the tray's menu does.
pub fn tray_menu_action(id: &str) -> (res: TrayAction)
    ensures
        res == if id@ == "show"@ {
            TrayAction::ShowWindow
        } else if id@ == "quit"@ {
            TrayAction::Quit
        } else {
            TrayAction::Nothing
        },
{
    if same_text(id, "show") {
        TrayAction::ShowWindow
    } else if same_text(id, "quit") {
        TrayAction::Quit
    } else {
        TrayAction::Nothing
    }
}

/// What a click on the tray icon does: the left button opens the window.
pub fn tray_click_action(left_button: bool) -> (res: TrayAction)
    ensures
        res == if left_button {
            TrayAction::ShowWindow
        } else {
            TrayAction::Nothing
        },
{
    if left_button {
        TrayAction::ShowWindow
    } else {
        TrayAction::Nothing
    }
}

/// How the tray icon appears.
#[derive(Clone, Copy, Debug, PartialEq, Eq, Structural)]
pub struct TrayLook {
    pub visible: bool,
    /// Whether the system recolours the icon to fit its menu bar.
    pub template: bool,
}

/// How the tray icon appears.
pub fn setup_tray(platform: Platform, hide_tray: bool) -> (res: TrayLook)
    ensures
        res == (TrayLook { visible: !hide_tray, template: platform == Platform::MacOs }),
{
    TrayLook { visible: !hide_tray, template: platform == Platform::MacOs }
}

/// The theme and colour mode to apply at the start. A colour mode that was never
/// stored is left to the theme; one that cannot be read follows the system.
pub fn apply_initial_theme(theme: &Stored, color_mode: &Stored) -> (res: (String, Option<String>))
    ensures
        res.0@ == theme@.text_or("mica"@),
        text_view(res.1) == match color_mode@ {
            StoredView::Value(mode) => Some(mode),
            StoredView::Missing => None,
            StoredView::Unreadable => Some("system"@),
        },
{
    let mode: Option<String> = match color_mode {
        Stored::Value(mode) => Some(mode.clone()),
        Stored::Missing => None,
        Stored::Unreadable => Some("system".to_string()),
    };
    (theme.text_or("mica"), mode)
}

} // verus!
