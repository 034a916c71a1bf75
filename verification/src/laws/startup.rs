//! Laws of the start.

use vstd::prelude::*;

use crate::decimal::parsed;
use crate::edge_dock::dock_named;
use crate::plan::WindowAction;
use crate::platform::Platform;
use crate::settings_store::{Stored, StoredSettings, StoredView};
use crate::startup::{
    apply_initial_dock_visibility, apply_initial_theme, init, is_leftover, redirect_target,
    resolve_data_dir, setup_main_window, setup_tray, space_retry_delays, start_services,
    tray_click_action, tray_menu_action, DataDir, InitStep, ServiceStep, TrayAction, TrayLook,
};
use crate::startup_settings::StartupSettings;
use crate::text::{has_prefix, has_suffix, lowered, trimmed};

verus! {

/// The place of a step in the course of the start.
pub open spec fn init_rank(step: InitStep) -> int {
    match step {
        InitStep::WatchWake => 0,
        InitStep::PublishHandle => 1,
        InitStep::ResolveDataDir => 2,
        InitStep::StartLog => 3,
        InitStep::StartEncryption => 4,
        InitStep::OpenDatabase => 5,
        InitStep::MigrateCiphertexts => 6,
        InitStep::StoreResets => 7,
        InitStep::LoadSettings => 8,
        InitStep::PublishState => 9,
        InitStep::StartEncryptionQueue => 10,
        InitStep::AlignSensitiveItems => 11,
        InitStep::ApplyDockIcon => 12,
        InitStep::SetupMainWindow => 13,
        InitStep::SetSoundDir => 14,
        InitStep::StartServices => 15,
        InitStep::SetupTray => 16,
        InitStep::ApplyTheme => 17,
        InitStep::AcceptDrops => 18,
        InitStep::InstallHooks => 19,
        InitStep::WatchTaskbar => 20,
    }
}

/// The start takes its steps in one order, each at most once. Only macOS watches for waking
/// up and sets a sound directory, only Windows accepts drops, installs hooks and watches
/// the taskbar, only a portable build has nothing to migrate, and all else is always done.
pub proof fn law_start_takes_its_steps(
    platform: Platform,
    portable: bool,
    step: InitStep,
    res: Vec<InitStep>,
)
    requires
        call_ensures(init, (platform, portable), res),
    ensures
        forall|i: int, j: int|
            0 <= i < j < res@.len() ==> init_rank(#[trigger] res@[i]) < init_rank(
                #[trigger] res@[j],
            ),
        res@.contains(step) <==> match step {
            InitStep::WatchWake | InitStep::SetSoundDir => platform is MacOs,
            InitStep::AcceptDrops
            | InitStep::InstallHooks
            | InitStep::WatchTaskbar => platform is Windows,
            InitStep::MigrateCiphertexts => !portable,
            _ => true,
        },
{
    let base: int = if platform is MacOs {
        1
    } else {
        0
    };
    let moved: int = if portable {
        base
    } else {
        base + 1
    };
    let late: int = if platform is MacOs {
        moved + 1
    } else {
        moved
    };
    if platform is MacOs {
        assert(res@[0] == InitStep::WatchWake);
        assert(res@[moved + 12] == InitStep::SetSoundDir);
    }
    assert(res@[base] == InitStep::PublishHandle);
    assert(res@[base + 1] == InitStep::ResolveDataDir);
    assert(res@[base + 2] == InitStep::StartLog);
    assert(res@[base + 3] == InitStep::StartEncryption);
    assert(res@[base + 4] == InitStep::OpenDatabase);
    if !portable {
        assert(res@[base + 5] == InitStep::MigrateCiphertexts);
    }
    assert(res@[moved + 5] == InitStep::StoreResets);
    assert(res@[moved + 6] == InitStep::LoadSettings);
    assert(res@[moved + 7] == InitStep::PublishState);
    assert(res@[moved + 8] == InitStep::StartEncryptionQueue);
    assert(res@[moved + 9] == InitStep::AlignSensitiveItems);
    assert(res@[moved + 10] == InitStep::ApplyDockIcon);
    assert(res@[moved + 11] == InitStep::SetupMainWindow);
    assert(res@[late + 12] == InitStep::StartServices);
    assert(res@[late + 13] == InitStep::SetupTray);
    assert(res@[late + 14] == InitStep::ApplyTheme);
    if platform is Windows {
        assert(res@[late + 15] == InitStep::AcceptDrops);
        assert(res@[late + 16] == InitStep::InstallHooks);
        assert(res@[late + 17] == InitStep::WatchTaskbar);
    }
}

/// A redirect file names the text in it, without white space around, unless that is empty
/// or an application bundle.
pub proof fn law_redirect_names_a_directory(content: Option<String>, res: Option<String>)
    requires
        call_ensures(redirect_target, (&content,), res),
    ensures
        content is None ==> res is None,
        content matches Some(text) ==> (res is Some <==> trimmed(text@).len() > 0 && !has_suffix(
            lowered(trimmed(text@)),
            ".app"@,
        )),
        res matches Some(path) ==> path@ == trimmed(content->0@),
{
}

/// The data lies next to the program where a directory for it is there, else in the
/// directory that the redirect file names where that is there, else in the default one.
pub proof fn law_data_directory_is_chosen(
    content: Option<String>,
    custom_is_dir: bool,
    portable_is_dir: bool,
    target: Option<String>,
    res: DataDir,
)
    requires
        call_ensures(resolve_data_dir, (&content, custom_is_dir, portable_is_dir), res),
        call_ensures(redirect_target, (&content,), target),
    ensures
        res is Portable <==> portable_is_dir,
        res is Custom <==> !portable_is_dir && custom_is_dir && target is Some,
        res matches DataDir::Custom(path) ==> path@ == target->0@,
{
}

/// A leftover file is one whose name starts in the way of the shell's temporary files.
pub proof fn law_leftovers_have_a_prefix(name: &str, res: bool)
    requires
        call_ensures(is_leftover, (name,), res),
    ensures
        res <==> has_prefix(name@, "TieZ_Clip_"@),
{
}

/// Only macOS has a dock icon, shown unless it is to be hidden.
pub proof fn law_dock_icon_is_for_macos(platform: Platform, s: StartupSettings, res: Option<bool>)
    requires
        call_ensures(apply_initial_dock_visibility, (platform, &s), res),
    ensures
        res is Some <==> platform is MacOs,
        res matches Some(visible) ==> visible == !s.hide_dock_icon,
{
}

/// Whether one of two command line arguments asks for a start in the background.
pub open spec fn background(args: Seq<String>) -> bool {
    exists|i: int|
        0 <= i < args.len() && ((#[trigger] args[i])@ == "--autostart"@ || args[i]@
            == "--minimized"@)
}

/// Whether the window appears at the start.
pub open spec fn appears(
    platform: Platform,
    s: StartupSettings,
    window_exists: bool,
    args: Seq<String>,
) -> bool {
    window_exists && !background(args) && !(platform is Windows && s.silent_start)
}

proof fn lemma_background(args: Seq<String>)
    ensures
        background(args) <==> crate::startup::in_background(args),
{
    let texts = crate::text::views(args);
    if background(args) {
        let i = choose|i: int|
            0 <= i < args.len() && ((#[trigger] args[i])@ == "--autostart"@ || args[i]@
                == "--minimized"@);
        assert(texts[i] == args[i]@);
    }
    if texts.contains("--autostart"@) {
        let i = choose|i: int| 0 <= i < texts.len() && texts[i] == "--autostart"@;
        assert(args[i]@ == "--autostart"@);
    }
    if texts.contains("--minimized"@) {
        let i = choose|i: int| 0 <= i < texts.len() && texts[i] == "--minimized"@;
        assert(args[i]@ == "--minimized"@);
    }
}

/// The stored size is restored exactly where the window exists and the size is at least
/// 360 by 240, on every system and whatever else is set; the pin is remembered first.
pub proof fn law_stored_size_is_restored(
    platform: Platform,
    s: StartupSettings,
    window_exists: bool,
    args: Vec<String>,
    width: u32,
    height: u32,
    res: Vec<WindowAction>,
)
    requires
        call_ensures(setup_main_window, (platform, &s, window_exists, &args), res),
    ensures
        res@.contains(WindowAction::Resize { width, height }) <==> window_exists && s.window_width
            == Some(width) && s.window_height == Some(height) && width >= 360 && height >= 240,
        res@.len() > 0 && res@[0] == WindowAction::SetPinned(s.window_pinned),
        !window_exists ==> res@.len() == 1,
        forall|i: int| 0 < i < res@.len() ==> !((#[trigger] res@[i]) is SetPinned),
{
    if window_exists && s.window_width is Some && s.window_height is Some
        && s.window_width->0 >= 360 && s.window_height->0 >= 240 {
        assert(res@[1] == WindowAction::Resize {
            width: s.window_width->0,
            height: s.window_height->0,
        });
    }
}

/// The window is shown exactly where it appears, and the developer tools come last then.
/// It gets the focus only there, and on macOS only where it is not docked.
#[verifier::spinoff_prover]
#[verifier::rlimit(60)]
pub proof fn law_window_appears(
    platform: Platform,
    s: StartupSettings,
    window_exists: bool,
    args: Vec<String>,
    dock: i32,
    res: Vec<WindowAction>,
)
    requires
        call_ensures(setup_main_window, (platform, &s, window_exists, &args), res),
        dock == dock_named(s.last_edge_dock@),
    ensures
        res@.contains(WindowAction::Show) <==> appears(platform, s, window_exists, args@),
        res@.contains(WindowAction::OpenDevtools) <==> appears(platform, s, window_exists, args@),
        res@.contains(WindowAction::OpenDevtools) ==> res@.last() == WindowAction::OpenDevtools,
        res@.contains(WindowAction::Focus) <==> appears(platform, s, window_exists, args@) && (
        platform is Other || (platform is MacOs && !(s.edge_docking && dock != 0))),
        res@.contains(WindowAction::Hide) ==> false,
{
    lemma_background(args@);
    let size = crate::startup::size_steps(s).len() as int;
    if appears(platform, s, window_exists, args@) {
        assert(res@.last() == WindowAction::OpenDevtools);
        assert(res@[res@.len() - 1] == WindowAction::OpenDevtools);
        match platform {
            Platform::Windows => {
                assert(res@[size + 3] == WindowAction::Show);
            },
            Platform::Other => {
                assert(res@[size + 4] == WindowAction::Show);
                assert(res@[size + 5] == WindowAction::Focus);
            },
            Platform::MacOs => {
                assert(res@[size + 3] == WindowAction::Show);
                if !(s.edge_docking && dock != 0) {
                    assert(res@[size + 7] == WindowAction::Focus);
                }
            },
        }
    }
}

/// A window that was docked when the application quit is put back at exactly that edge,
/// on macOS alone and only where it appears with docking on: it is remembered as tucked
/// away there, kept on top, and moved there now and again later.
#[verifier::spinoff_prover]
#[verifier::rlimit(60)]
pub proof fn law_docked_window_goes_back(
    platform: Platform,
    s: StartupSettings,
    window_exists: bool,
    args: Vec<String>,
    edge: i32,
    res: Vec<WindowAction>,
)
    requires
        call_ensures(setup_main_window, (platform, &s, window_exists, &args), res),
    ensures
        ({
            let docks = appears(platform, s, window_exists, args@) && platform is MacOs
                && s.edge_docking && edge != 0 && dock_named(s.last_edge_dock@) == edge;
            &&& res@.contains(WindowAction::SetDock(edge)) <==> docks
            &&& res@.contains(WindowAction::DockPosition(edge)) <==> docks
            &&& res@.contains(WindowAction::RepeatDockPosition(edge)) <==> docks
            &&& docks ==> res@.contains(WindowAction::SetHidden(true)) && res@.contains(
                WindowAction::AlwaysOnTop(true),
            )
        }),
        res@.contains(WindowAction::SetHidden(true)) ==> appears(
            platform,
            s,
            window_exists,
            args@,
        ) && platform is MacOs && s.edge_docking && dock_named(s.last_edge_dock@) != 0,
        !res@.contains(WindowAction::SetHidden(false)),
{
    lemma_background(args@);
    let size = crate::startup::size_steps(s).len() as int;
    let dock = dock_named(s.last_edge_dock@);
    if appears(platform, s, window_exists, args@) && platform is MacOs && s.edge_docking && dock
        != 0 {
        assert(res@[size + 7] == WindowAction::SetDock(dock));
        assert(res@[size + 8] == WindowAction::SetHidden(true));
        assert(res@[size + 9] == WindowAction::AlwaysOnTop(true));
        assert(res@[size + 10] == WindowAction::DockPosition(dock));
        assert(res@[size + 11] == WindowAction::RepeatDockPosition(dock));
    }
}

/// The window is kept on top as it is pinned; only Windows keeps a pinned window from
/// getting the focus, macOS makes it a panel on all spaces instead, and other systems let
/// it have the focus.
#[verifier::spinoff_prover]
#[verifier::rlimit(60)]
pub proof fn law_window_is_prepared(
    platform: Platform,
    s: StartupSettings,
    window_exists: bool,
    args: Vec<String>,
    res: Vec<WindowAction>,
)
    requires
        call_ensures(setup_main_window, (platform, &s, window_exists, &args), res),
    ensures
        window_exists ==> res@.contains(WindowAction::AlwaysOnTop(s.window_pinned)),
        res@.contains(WindowAction::AlwaysOnTop(!s.window_pinned)) ==> !s.window_pinned
            && res@.contains(WindowAction::SetHidden(true)),
        res@.contains(WindowAction::Focusable(true)) <==> window_exists && (platform is Other || (
        platform is Windows && !s.window_pinned)),
        res@.contains(WindowAction::Focusable(false)) <==> window_exists && platform is Windows
            && s.window_pinned,
        res@.contains(WindowAction::MakePanel) <==> window_exists && platform is MacOs,
        res@.contains(WindowAction::JoinAllSpaces) <==> window_exists && platform is MacOs,
        res@.contains(WindowAction::RepeatJoinAllSpaces) <==> platform is MacOs && appears(
            platform,
            s,
            window_exists,
            args@,
        ),
        forall|i: int|
            0 <= i < res@.len() ==> match #[trigger] res@[i] {
                WindowAction::SetPinned(_)
                | WindowAction::Resize { .. }
                | WindowAction::AlwaysOnTop(_)
                | WindowAction::Focusable(_)
                | WindowAction::JoinAllSpaces
                | WindowAction::RepeatJoinAllSpaces
                | WindowAction::MakePanel
                | WindowAction::Show
                | WindowAction::Focus
                | WindowAction::OpenDevtools
                | WindowAction::SetDock(_)
                | WindowAction::SetHidden(_)
                | WindowAction::DockPosition(_)
                | WindowAction::RepeatDockPosition(_) => true,
                _ => false,
            },
{
    lemma_background(args@);
    let size = crate::startup::size_steps(s).len() as int;
    let dock = dock_named(s.last_edge_dock@);
    if window_exists {
        assert(res@[size + 1] == WindowAction::AlwaysOnTop(s.window_pinned));
        match platform {
            Platform::Windows => {
                assert(res@[size + 2] == WindowAction::Focusable(!s.window_pinned));
            },
            Platform::Other => {
                assert(res@[size + 2] == WindowAction::Focusable(true));
            },
            Platform::MacOs => {
                assert(res@[size + 2] == WindowAction::JoinAllSpaces);
                if appears(platform, s, window_exists, args@) {
                    assert(res@[size + 4] == WindowAction::MakePanel);
                    assert(res@[size + 6] == WindowAction::RepeatJoinAllSpaces);
                    if s.edge_docking && dock != 0 {
                        assert(res@[size + 8] == WindowAction::SetHidden(true));
                    }
                } else {
                    assert(res@[size + 3] == WindowAction::MakePanel);
                }
            },
        }
    }
}

/// The steps are as many as the system needs. A window that appears on macOS becomes a
/// panel at once and joins all spaces then, now and again later; elsewhere than on Windows
/// and macOS it can have the focus before it appears.
#[verifier::spinoff_prover]
#[verifier::rlimit(60)]
pub proof fn law_shown_window_joins_all_spaces(
    platform: Platform,
    s: StartupSettings,
    window_exists: bool,
    args: Vec<String>,
    i: int,
    res: Vec<WindowAction>,
)
    requires
        call_ensures(setup_main_window, (platform, &s, window_exists, &args), res),
    ensures
        0 <= i < res@.len() && res@[i] is Show && platform is MacOs ==> {
            &&& i + 3 < res@.len()
            &&& res@[i - 1] == WindowAction::JoinAllSpaces
            &&& res@[i + 1] == WindowAction::MakePanel
            &&& res@[i + 2] == WindowAction::JoinAllSpaces
            &&& res@[i + 3] == WindowAction::RepeatJoinAllSpaces
        },
        0 <= i < res@.len() && res@[i] is Show && platform is Other ==> res@[i - 1]
            == WindowAction::Focusable(true) && res@[i - 2] == WindowAction::Focusable(true),
        window_exists ==> res@.len() == 3 + (if s.window_width is Some && s.window_height is Some
            && s.window_width->0 >= 360 && s.window_height->0 >= 240 {
            1int
        } else {
            0
        }) + (if appears(platform, s, window_exists, args@) {
            match platform {
                Platform::Windows => 2,
                Platform::Other => 4,
                Platform::MacOs => if s.edge_docking && dock_named(s.last_edge_dock@) != 0 {
                    10
                } else {
                    6int
                },
            }
        } else {
            if platform is Windows {
                0
            } else {
                1
            }
        }),
{
    lemma_background(args@);
    let size = crate::startup::size_steps(s).len() as int;
    assert(size == 0 || size == 1);
    if window_exists {
        match platform {
            Platform::Windows => {},
            Platform::Other => {
                assert(res@[size + 2] == WindowAction::Focusable(true));
                assert(res@[size + 3] == WindowAction::Focusable(true));
            },
            Platform::MacOs => {
                assert(res@[size + 2] == WindowAction::JoinAllSpaces);
                if appears(platform, s, window_exists, args@) {
                    assert(res@[size + 3] == WindowAction::Show);
                    assert(res@[size + 4] == WindowAction::MakePanel);
                    assert(res@[size + 5] == WindowAction::JoinAllSpaces);
                    assert(res@[size + 6] == WindowAction::RepeatJoinAllSpaces);
                }
            },
        }
    }
}

/// The window gets its size and is prepared before it is shown, is shown before it becomes
/// a panel, and is remembered as docked before it is moved to its edge.
#[verifier::spinoff_prover]
#[verifier::rlimit(60)]
pub proof fn law_window_is_set_up_in_order(
    platform: Platform,
    s: StartupSettings,
    window_exists: bool,
    args: Vec<String>,
    i: int,
    j: int,
    res: Vec<WindowAction>,
)
    requires
        call_ensures(setup_main_window, (platform, &s, window_exists, &args), res),
        0 <= i < j < res@.len(),
    ensures
        !(res@[j] is Resize && (res@[i] is Show || res@[i] is AlwaysOnTop)),
        !(res@[j] is Show && (res@[i] is Show || res@[i] is MakePanel || res@[i] is Focus)),
        !(res@[j] is MakePanel && (res@[i] is MakePanel || res@[i] is Focus
            || res@[i] is DockPosition)),
        !(res@[j] is SetDock && (res@[i] is DockPosition || res@[i] is SetDock)),
        !(res@[j] is SetHidden && res@[i] is DockPosition),
        !(res@[j] is DockPosition && res@[i] is RepeatDockPosition),
        !(res@[i] is AlwaysOnTop && res@[j] is AlwaysOnTop && res@[j]
            != WindowAction::AlwaysOnTop(true)),
{
}

/// The place of a service among those that are started.
pub open spec fn service_rank(step: ServiceStep) -> int {
    match step {
        ServiceStep::TrackWindows => 0,
        ServiceStep::WatchPasteKey => 1,
        ServiceStep::WatchClipboard => 2,
        ServiceStep::PreloadSounds(_) => 3,
        ServiceStep::StartMessageQueue => 4,
        ServiceStep::StartCloudSync => 5,
        ServiceStep::WatchEdges => 6,
        ServiceStep::StartFileServer { .. } => 7,
        ServiceStep::RunAnalytics => 8,
        ServiceStep::PublishHotkey => 9,
        ServiceStep::RegisterHotkeys => 10,
        ServiceStep::TakeOverWinV => 11,
    }
}

/// Services start in one order, each at most once.
pub proof fn law_services_start_in_order(
    platform: Platform,
    s: StartupSettings,
    stored: StoredSettings,
    win_v_taken: bool,
    res: Vec<ServiceStep>,
    i: int,
    j: int,
)
    requires
        call_ensures(start_services, (platform, &s, &stored, win_v_taken), res),
        0 <= i < j < res@.len(),
    ensures
        service_rank(res@[i]) < service_rank(res@[j]),
{
    let first: Seq<ServiceStep> = match platform {
        Platform::MacOs => seq![ServiceStep::TrackWindows, ServiceStep::WatchPasteKey],
        Platform::Windows => seq![ServiceStep::TrackWindows],
        Platform::Other => seq![],
    };
    let clipboard = seq![ServiceStep::WatchClipboard];
    let sounds: Seq<ServiceStep> = if s.sound_enabled {
        seq![ServiceStep::PreloadSounds(s.sound_volume)]
    } else {
        seq![]
    };
    let remote = seq![ServiceStep::StartMessageQueue, ServiceStep::StartCloudSync];
    let edges: Seq<ServiceStep> = if platform is Other {
        seq![]
    } else {
        seq![ServiceStep::WatchEdges]
    };
    let server = crate::startup::file_server_steps(stored);
    let hotkeys = seq![
        ServiceStep::RunAnalytics,
        ServiceStep::PublishHotkey,
        ServiceStep::RegisterHotkeys,
    ];
    let last: Seq<ServiceStep> = if platform is Windows && !win_v_taken && stored.at(
        "app.use_win_v_shortcut"@,
    ) == StoredView::Value("true"@) {
        seq![ServiceStep::TakeOverWinV]
    } else {
        seq![]
    };
    assert(res@ == first + clipboard + sounds + remote + edges + server + hotkeys + last);
    lemma_ranks_concat(first, clipboard, 2, 3);
    lemma_ranks_concat(first + clipboard, sounds, 3, 4);
    lemma_ranks_concat(first + clipboard + sounds, remote, 4, 6);
    lemma_ranks_concat(first + clipboard + sounds + remote, edges, 6, 7);
    lemma_ranks_concat(first + clipboard + sounds + remote + edges, server, 7, 8);
    lemma_ranks_concat(first + clipboard + sounds + remote + edges + server, hotkeys, 8, 11);
    lemma_ranks_concat(
        first + clipboard + sounds + remote + edges + server + hotkeys,
        last,
        11,
        12,
    );
}

/// Whether services come by growing rank, all below a limit.
pub open spec fn ranked(steps: Seq<ServiceStep>, limit: int) -> bool {
    &&& forall|i: int| 0 <= i < steps.len() ==> service_rank(#[trigger] steps[i]) < limit
    &&& forall|i: int, j: int|
        0 <= i < j < steps.len() ==> service_rank(#[trigger] steps[i]) < service_rank(
            #[trigger] steps[j],
        )
}

proof fn lemma_ranks_concat(
    first: Seq<ServiceStep>,
    second: Seq<ServiceStep>,
    middle: int,
    limit: int,
)
    requires
        ranked(first, middle),
        ranked(second, limit),
        middle <= limit,
        forall|i: int| 0 <= i < second.len() ==> service_rank(#[trigger] second[i]) >= middle,
    ensures
        ranked(first + second, limit),
{
    let both = first + second;
    assert forall|i: int| 0 <= i < both.len() implies service_rank(#[trigger] both[i]) < limit by {
        if i < first.len() {
            assert(both[i] == first[i]);
        } else {
            assert(both[i] == second[i - first.len()]);
        }
    }
    assert forall|i: int, j: int| 0 <= i < j < both.len() implies service_rank(#[trigger] both[i])
        < service_rank(#[trigger] both[j]) by {
        if j < first.len() {
            assert(both[i] == first[i] && both[j] == first[j]);
        } else if i < first.len() {
            assert(both[i] == first[i] && both[j] == second[j - first.len()]);
        } else {
            assert(both[i] == second[i - first.len()] && both[j] == second[j - first.len()]);
        }
    }
}

/// Sounds are registered exactly where they are on, at the volume of the settings; the
/// file server starts exactly where it is stored as on, at the stored port where that is
/// one; the system's shortcut is taken over exactly where that is wanted on Windows and
/// not done yet.
#[verifier::spinoff_prover]
#[verifier::rlimit(60)]
pub proof fn law_services_start_as_wanted(
    platform: Platform,
    s: StartupSettings,
    stored: StoredSettings,
    win_v_taken: bool,
    step: ServiceStep,
    res: Vec<ServiceStep>,
)
    requires
        call_ensures(start_services, (platform, &s, &stored, win_v_taken), res),
    ensures
        res@.contains(step) <==> match step {
            ServiceStep::TrackWindows | ServiceStep::WatchEdges => !(platform is Other),
            ServiceStep::WatchPasteKey => platform is MacOs,
            ServiceStep::PreloadSounds(volume) => s.sound_enabled && volume == s.sound_volume,
            ServiceStep::StartFileServer { port } => {
                &&& stored.at("file_server_enabled"@) == StoredView::Value("true"@)
                &&& match (stored.at("file_server_port"@), port) {
                    (StoredView::Value(text), Some(n)) => parsed(text, 0xffff) == Some(n as nat),
                    (StoredView::Value(text), None) => parsed(text, 0xffff) is None,
                    (_, Some(_)) => false,
                    (_, None) => true,
                }
            },
            ServiceStep::TakeOverWinV => platform is Windows && !win_v_taken && stored.at(
                "app.use_win_v_shortcut"@,
            ) == StoredView::Value("true"@),
            _ => true,
        },
{
    let base: int = if platform is MacOs {
        2
    } else if platform is Windows {
        1
    } else {
        0
    };
    let sound: int = if s.sound_enabled {
        base + 2
    } else {
        base + 1
    };
    let edge: int = if platform is Other {
        sound + 2
    } else {
        sound + 3
    };
    let server = stored.at("file_server_enabled"@) == StoredView::Value("true"@);
    let rest: int = if server {
        edge + 1
    } else {
        edge
    };
    if !(platform is Other) {
        assert(res@[0] == ServiceStep::TrackWindows);
        assert(res@[sound + 2] == ServiceStep::WatchEdges);
    }
    if platform is MacOs {
        assert(res@[1] == ServiceStep::WatchPasteKey);
    }
    assert(res@[base] == ServiceStep::WatchClipboard);
    if s.sound_enabled {
        assert(res@[base + 1] == ServiceStep::PreloadSounds(s.sound_volume));
    }
    assert(res@[sound] == ServiceStep::StartMessageQueue);
    assert(res@[sound + 1] == ServiceStep::StartCloudSync);
    if server {
        assert(res@[edge] == crate::startup::file_server_steps(stored)[0]);
    }
    assert(res@[rest] == ServiceStep::RunAnalytics);
    assert(res@[rest + 1] == ServiceStep::PublishHotkey);
    assert(res@[rest + 2] == ServiceStep::RegisterHotkeys);
    if platform is Windows && !win_v_taken && stored.at("app.use_win_v_shortcut"@)
        == StoredView::Value("true"@) {
        assert(res@[rest + 3] == ServiceStep::TakeOverWinV);
    }
}

/// The tray's menu shows the window or quits, by its two entries alone; a left click shows
/// the window; the icon is visible unless it is to be hidden.
pub proof fn law_tray_shows_and_quits(
    id: &str,
    chosen: TrayAction,
    left: bool,
    clicked: TrayAction,
    platform: Platform,
    hide: bool,
    look: TrayLook,
)
    requires
        call_ensures(tray_menu_action, (id,), chosen),
        call_ensures(tray_click_action, (left,), clicked),
        call_ensures(setup_tray, (platform, hide), look),
    ensures
        chosen is ShowWindow <==> id@ == "show"@,
        chosen is Quit <==> id@ == "quit"@,
        clicked is ShowWindow <==> left,
        !(clicked is Quit),
        look.visible <==> !hide,
        look.template <==> platform is MacOs,
{
    reveal_strlit("show");
    reveal_strlit("quit");
    assert("show"@[0] != "quit"@[0]);
}

/// The theme is the stored one, by default `mica`; a colour mode is applied where one is
/// stored, and the one of the system where that cannot be told.
pub proof fn law_theme_is_applied(
    theme: Stored,
    color_mode: Stored,
    res: (String, Option<String>),
)
    requires
        call_ensures(apply_initial_theme, (&theme, &color_mode), res),
    ensures
        theme@ is Value ==> theme@ == StoredView::Value(res.0@),
        !(theme@ is Value) ==> res.0@ == "mica"@,
        res.1 is None <==> color_mode@ is Missing,
        res.1 matches Some(mode) ==> (color_mode@ is Value ==> color_mode@ == StoredView::Value(
            mode@,
        )) && (color_mode@ is Unreadable ==> mode@ == "system"@),
{
}

/// The window joins all spaces again at four growing distances, within about two seconds;
/// a docked one is moved to its edge six times more, 80 milliseconds apart.
pub proof fn law_space_retries_grow(res: Vec<u64>)
    requires
        call_ensures(space_retry_delays, (), res),
    ensures
        crate::startup::DOCK_RETRIES == 6,
        crate::startup::DOCK_RETRY_MS == 80,
        res@.len() == 4,
        forall|i: int, j: int| 0 <= i < j < 4 ==> 2 * #[trigger] res@[i] <= #[trigger] res@[j],
        res@[0] == 50 && res@[0] + res@[1] + res@[2] + res@[3] == 2050 && res@[3] == 2 * res@[2]
            && res@[2] == 3 * res@[1],
{
}

} // verus!
