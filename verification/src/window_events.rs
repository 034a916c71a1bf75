//! What the shell does when its window gains or loses the focus, is resized, or is
//! to be closed.

use vstd::prelude::*;

use crate::clock::{elapsed, elapsed_ms, now_ms};
use crate::decimal::{decimal, lemma_decimal_reads_back, to_decimal};
use crate::plan::{flags_after_all, EdgeFlags, WindowAction};
use crate::platform::Platform;
use crate::settings_store::{
    after_writes, write_of, write_views, SettingWrite, StoredSettings, StoredView, WriteView,
};
use crate::startup_settings::StartupSettings;
use crate::text::same_text;

verus! {

/// Something that happened to a window.
#[derive(Clone, Copy, Debug, PartialEq, Eq, Structural)]
pub enum WindowEvent {
    Focused(bool),
    Resized { width: u32, height: u32 },
    CloseRequested,
    /// Anything else.
    Other,
}

/// The plan for closing the window: it stays open, but hidden, and nothing of a dock
/// position or of keyboard navigation is left.
pub open spec fn close_plan(platform: Platform) -> Seq<WindowAction> {
    seq![
        WindowAction::PreventClose,
        WindowAction::HidePreview,
        WindowAction::ClearVibrancy,
        if platform == Platform::MacOs {
            WindowAction::HidePanel
        } else {
            WindowAction::Hide
        },
        WindowAction::SetHidden(false),
        WindowAction::SetDock(0),
        WindowAction::SetNavigation(false),
        WindowAction::SetNavigationMode(false),
    ]
}

/// The plan for an event of the window named `label`; only the main window has one.
///
/// A size counts unless the window is minimized, or, on Windows, maximized.
pub open spec fn event_plan(
    platform: Platform,
    label: Seq<char>,
    event: WindowEvent,
    minimized: bool,
    maximized: bool,
) -> Seq<WindowAction> {
    if label != "main"@ {
        seq![]
    } else {
        match event {
            WindowEvent::Focused(true) => seq![WindowAction::SetFocused(true)],
            WindowEvent::Focused(false) => {
                seq![WindowAction::SetFocused(false), WindowAction::CheckBlur]
            },
            WindowEvent::Resized { width, height } => {
                if minimized || (platform == Platform::Windows && maximized) {
                    seq![]
                } else {
                    seq![WindowAction::PersistSize { width, height }]
                }
            },
            WindowEvent::CloseRequested => close_plan(platform),
            WindowEvent::Other => seq![],
        }
    }
}

/// The plan for an event of the window named `label`.
pub fn handle_window_event(
    platform: Platform,
    label: &str,
    event: WindowEvent,
    minimized: bool,
    maximized: bool,
) -> (res: Vec<WindowAction>)
    ensures
        res@ == event_plan(platform, label@, event, minimized, maximized),
{
    if !same_text(label, "main") {
        return Vec::new();
    }
    match event {
        WindowEvent::Focused(focused) => {
            let mut plan: Vec<WindowAction> = vec![WindowAction::SetFocused(focused)];
            if !focused {
                plan.push(WindowAction::CheckBlur);
            }
            plan
        },
        WindowEvent::Resized { width, height } => {
            if minimized || (platform == Platform::Windows && maximized) {
                Vec::new()
            } else {
                vec![WindowAction::PersistSize { width, height }]
            }
        },
        WindowEvent::CloseRequested => {
            let hide = if platform == Platform::MacOs {
                WindowAction::HidePanel
            } else {
                WindowAction::Hide
            };
            vec![
                WindowAction::PreventClose,
                WindowAction::HidePreview,
                WindowAction::ClearVibrancy,
                hide,
                WindowAction::SetHidden(false),
                WindowAction::SetDock(0),
                WindowAction::SetNavigation(false),
                WindowAction::SetNavigationMode(false),
            ]
        },
        WindowEvent::Other => Vec::new(),
    }
}

/// Closing the window leaves no dock position behind, whatever it was before.
pub proof fn lemma_closing_forgets_the_dock(platform: Platform, flags: EdgeFlags)
    ensures
        flags_after_all(flags, close_plan(platform)) == (EdgeFlags { hidden: false, dock: 0 }),
{
    let plan = close_plan(platform);
    reveal_with_fuel(flags_after_all, 9);
    assert(plan.drop_last().last() == WindowAction::SetNavigation(false));
    assert(plan.drop_last().drop_last().last() == WindowAction::SetDock(0));
    assert(plan.drop_last().drop_last().drop_last().last() == WindowAction::SetHidden(false));
}

/// A size below this, in either direction, is not kept.
pub const MIN_KEPT_SIZE: u32 = 200;

/// How long the window must keep its size before that is stored, in milliseconds.
pub const SIZE_QUIET_MS: u64 = 200;

/// How often that is looked at, in milliseconds.
pub const SIZE_CHECK_MS: u64 = 250;

/// The window size that is to be stored once the user is done resizing.
#[derive(Clone, Copy, Debug, PartialEq, Eq, Structural)]
pub struct SizeKeeper {
    /// Whether something waits already to store the size.
    pub pending: bool,
    /// The time of the last resize, in milliseconds since the epoch.
    pub last_event_ms: u64,
    pub width: u32,
    pub height: u32,
}

impl SizeKeeper {
    /// A size that waits to be stored is large enough to be kept.
    pub open spec fn wf(self) -> bool {
        self.pending ==> self.width >= MIN_KEPT_SIZE && self.height >= MIN_KEPT_SIZE
    }

    /// The keeper after a resize at `now`.
    pub open spec fn resized(self, width: u32, height: u32, now: u64) -> SizeKeeper {
        if width < MIN_KEPT_SIZE || height < MIN_KEPT_SIZE {
            self
        } else {
            SizeKeeper { pending: true, last_event_ms: now, width, height }
        }
    }

    /// Whether a resize calls for something that waits to store the size.
    pub open spec fn starts_waiting(self, width: u32, height: u32) -> bool {
        width >= MIN_KEPT_SIZE && height >= MIN_KEPT_SIZE && !self.pending
    }

    /// Whether the size is stored at `now`.
    pub open spec fn settled(self, now: u64) -> bool {
        elapsed(now, self.last_event_ms) >= SIZE_QUIET_MS
    }

    /// Nothing waits to be stored.
    pub fn new() -> (res: SizeKeeper)
        ensures
            res.wf(),
            !res.pending,
    {
        SizeKeeper { pending: false, last_event_ms: 0, width: 0, height: 0 }
    }

    /// Notes a resize at `now`. The result is whether something has to start waiting
    /// to store the size.
    pub fn resize_at(&mut self, width: u32, height: u32, now: u64) -> (res: bool)
        requires
            old(self).wf(),
        ensures
            *final(self) == old(self).resized(width, height, now),
            final(self).wf(),
            res == old(self).starts_waiting(width, height),
    {
        if width < MIN_KEPT_SIZE || height < MIN_KEPT_SIZE {
            return false;
        }
        let waiting = self.pending;
        self.width = width;
        self.height = height;
        self.last_event_ms = now;
        self.pending = true;
        !waiting
    }

    /// The values to store at `now`; none while the window is still being resized.
    pub fn save_at(&self, now: u64) -> (res: Option<Vec<SettingWrite>>)
        ensures
            res is Some == self.settled(now),
            res matches Some(writes) ==> write_views(writes@) == size_writes(
                self.width,
                self.height,
            ),
    {
        if elapsed_ms(now, self.last_event_ms) < SIZE_QUIET_MS {
            return None;
        }
        let width = write_of("app.window_width", to_decimal(self.width).as_str());
        let height = write_of("app.window_height", to_decimal(self.height).as_str());
        let writes = vec![width, height];
        assert(write_views(writes@) == size_writes(self.width, self.height));
        Some(writes)
    }

    /// The values to store at the clock's present reading.
    pub fn save(&self) -> (res: Option<Vec<SettingWrite>>)
        ensures
            exists|now: u64| res is Some == #[trigger] self.settled(now),
            res matches Some(writes) ==> write_views(writes@) == size_writes(
                self.width,
                self.height,
            ),
    {
        let now: u64 = now_ms();
        self.save_at(now)
    }

    /// Notes that the size is stored.
    pub fn saved(&mut self)
        ensures
            *final(self) == (SizeKeeper { pending: false, ..*old(self) }),
            final(self).wf(),
    {
        self.pending = false;
    }
}

/// The values that store a size.
pub open spec fn size_writes(width: u32, height: u32) -> Seq<WriteView> {
    seq![
        WriteView { key: "app.window_width"@, value: decimal(width as nat) },
        WriteView { key: "app.window_height"@, value: decimal(height as nat) },
    ]
}

/// Notes a resize at the clock's present reading. The result is whether something
/// has to start waiting to store the size.
pub fn persist_window_size(keeper: &mut SizeKeeper, width: u32, height: u32) -> (res: bool)
    requires
        old(keeper).wf(),
    ensures
        exists|now: u64| *final(keeper) == #[trigger] old(keeper).resized(width, height, now),
        final(keeper).wf(),
        res == old(keeper).starts_waiting(width, height),
{
    let now: u64 = now_ms();
    keeper.resize_at(width, height, now)
}

/// Of several sizes in a row the last one that is large enough is stored, and not
/// before the window has kept it for a while.
pub proof fn lemma_last_size_is_stored(
    keeper: SizeKeeper,
    width: u32,
    height: u32,
    at: u64,
    now: u64,
)
    requires
        width >= MIN_KEPT_SIZE,
        height >= MIN_KEPT_SIZE,
    ensures
        ({
            let after = keeper.resized(width, height, at);
            &&& after.pending
            &&& after.settled(now) <==> now - at >= SIZE_QUIET_MS
            &&& after.width == width && after.height == height
            &&& forall|w: u32, h: u32, t: u64|
                (w < MIN_KEPT_SIZE || h < MIN_KEPT_SIZE) ==> #[trigger] after.resized(w, h, t)
                    == after
        }),
{
}

/// Exactly one thing waits at a time: a resize starts one only where none does, and
/// once it has, no other resize starts another before the size is stored.
pub proof fn lemma_one_waits_at_a_time(
    keeper: SizeKeeper,
    width: u32,
    height: u32,
    at: u64,
    next_width: u32,
    next_height: u32,
)
    requires
        keeper.starts_waiting(width, height) || keeper.pending,
    ensures
        !keeper.resized(width, height, at).starts_waiting(next_width, next_height),
{
}

/// A size that is stored is the one that the next start reads.
pub proof fn lemma_saved_size_reads_back(
    stored: StoredSettings,
    width: u32,
    height: u32,
    later: StoredSettings,
    volume: Option<u64>,
    settings: StartupSettings,
)
    requires
        forall|key: Seq<char>| #[trigger]
            later.at(key) == after_writes(stored.at(key), size_writes(width, height), key),
        settings.are_of(later, volume),
    ensures
        settings.window_width == Some(width),
        settings.window_height == Some(height),
{
    let writes = size_writes(width, height);
    reveal_strlit("app.window_width");
    reveal_strlit("app.window_height");
    assert("app.window_width"@.len() != "app.window_height"@.len());
    reveal_with_fuel(after_writes, 3);
    assert(writes.drop_last().last() == writes[0]);
    assert(later.at("app.window_width"@) == StoredView::Value(decimal(width as nat)));
    assert(later.at("app.window_height"@) == StoredView::Value(decimal(height as nat)));
    lemma_decimal_reads_back(width as nat, u32::MAX as nat);
    lemma_decimal_reads_back(height as nat, u32::MAX as nat);
}

/// How long after it was shown the window ignores the loss of the focus, in
/// milliseconds.
pub const BLUR_GRACE_MS: u64 = 500;

/// How long after losing the focus the window is hidden, in milliseconds.
pub const BLUR_DELAY_MS: u64 = 200;

/// What is seen when the window loses the focus.
#[derive(Clone, Copy, Debug, PartialEq, Eq, Structural)]
pub struct BlurObservation {
    /// Whether losing the focus is to be ignored at present.
    pub ignored: bool,
    pub pinned: bool,
    /// When the window was last shown, in milliseconds since the epoch.
    pub last_show_ms: u64,
    pub mouse_down: bool,
}

impl BlurObservation {
    /// Whether the window may be about to be hidden. Only Windows hides it here: on
    /// macOS the panel does so by itself.
    pub open spec fn may_hide(self, platform: Platform, now: u64) -> bool {
        &&& platform == Platform::Windows
        &&& !self.ignored
        &&& !self.pinned
        &&& elapsed(now, self.last_show_ms) >= BLUR_GRACE_MS
        &&& !self.mouse_down
    }
}

/// Whether the window may be about to be hidden, having lost the focus at `now`.
pub fn blur_at(platform: Platform, seen: &BlurObservation, now: u64) -> (res: bool)
    ensures
        res == seen.may_hide(platform, now),
{
    if platform != Platform::Windows {
        return false;
    }
    if seen.ignored || seen.pinned {
        return false;
    }
    if elapsed_ms(now, seen.last_show_ms) < BLUR_GRACE_MS {
        return false;
    }
    !seen.mouse_down
}

/// Whether the window may be about to be hidden, having lost the focus at the
/// clock's present reading. Where it may, that is looked at again after a moment.
pub fn handle_blur(platform: Platform, seen: &BlurObservation) -> (res: bool)
    ensures
        exists|now: u64| res == #[trigger] seen.may_hide(platform, now),
        platform != Platform::Windows || seen.ignored || seen.pinned || seen.mouse_down ==> !res,
{
    let now: u64 = now_ms();
    blur_at(platform, seen, now)
}

/// What is seen a moment after the window lost the focus.
#[derive(Clone, Copy, Debug, PartialEq, Eq, Structural)]
pub struct BlurCheck {
    pub mouse_down: bool,
    pub flags: EdgeFlags,
    /// Whether the window has the focus, if that can be told.
    pub focused: Option<bool>,
    pub ignored: bool,
    pub pinned: bool,
}

impl BlurCheck {
    /// Whether the window is hidden: it still lacks the focus, the mouse is up, and it
    /// is neither tucked away nor pinned.
    pub open spec fn hides(self) -> bool {
        &&& !self.mouse_down
        &&& !self.flags.hidden
        &&& self.flags.dock == 0
        &&& self.focused == Some(false)
        &&& !self.ignored
        &&& !self.pinned
    }
}

/// The plan for hiding the window because it lost the focus.
pub open spec fn blur_plan(seen: BlurCheck) -> Seq<WindowAction> {
    if seen.hides() {
        seq![
            WindowAction::HidePreview,
            WindowAction::ClearVibrancy,
            WindowAction::Hide,
            WindowAction::SetNavigation(false),
            WindowAction::ReleaseModifiers,
            WindowAction::RestorePreviousFocus,
        ]
    } else {
        seq![]
    }
}

/// The plan a moment after the window lost the focus.
pub fn settle_blur(seen: &BlurCheck) -> (res: Vec<WindowAction>)
    ensures
        res@ == blur_plan(*seen),
{
    let tucked = seen.flags.hidden || seen.flags.dock != 0;
    let unfocused = match seen.focused {
        Some(focused) => !focused,
        None => false,
    };
    if !seen.mouse_down && !tucked && unfocused && !seen.ignored && !seen.pinned {
        vec![
            WindowAction::HidePreview,
            WindowAction::ClearVibrancy,
            WindowAction::Hide,
            WindowAction::SetNavigation(false),
            WindowAction::ReleaseModifiers,
            WindowAction::RestorePreviousFocus,
        ]
    } else {
        Vec::new()
    }
}

/// Losing the focus never hides a window that is pinned, tucked away, focused again,
/// or being dragged with the mouse.
pub proof fn lemma_blur_spares_the_window(seen: BlurCheck)
    requires
        seen.pinned || seen.flags.hidden || seen.flags.dock != 0 || seen.focused == Some(true)
            || seen.mouse_down,
    ensures
        blur_plan(seen) == Seq::<WindowAction>::empty(),
{
}

} // verus!
