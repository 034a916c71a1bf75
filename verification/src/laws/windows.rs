//! Laws of what happens to the main window.

use vstd::prelude::*;

use crate::clock::elapsed_ms;
use crate::decimal::parse_u32;
use crate::plan::WindowAction;
use crate::platform::Platform;
use crate::settings_store::SettingWrite;
use crate::window_events::{
    blur_at, handle_blur, handle_window_event, persist_window_size, settle_blur, BlurCheck,
    BlurObservation, SizeKeeper, WindowEvent,
};

verus! {

/// Only the main window is looked after.
pub proof fn law_other_windows_are_left_alone(
    platform: Platform,
    label: &str,
    event: WindowEvent,
    minimized: bool,
    maximized: bool,
    res: Vec<WindowAction>,
)
    requires
        call_ensures(handle_window_event, (platform, label, event, minimized, maximized), res),
        label@ != "main"@,
    ensures
        res@.len() == 0,
{
}

/// The focus is noted whenever it comes or goes; only its loss is looked at again.
pub proof fn law_focus_is_noted(
    platform: Platform,
    label: &str,
    event: WindowEvent,
    minimized: bool,
    maximized: bool,
    on: bool,
    res: Vec<WindowAction>,
)
    requires
        call_ensures(handle_window_event, (platform, label, event, minimized, maximized), res),
        label@ == "main"@,
    ensures
        res@.contains(WindowAction::SetFocused(on)) <==> event == WindowEvent::Focused(on),
        res@.contains(WindowAction::CheckBlur) <==> event == WindowEvent::Focused(false),
        event is Focused ==> res@.len() <= 2 && res@[0] is SetFocused,
        event is Other ==> res@.len() == 0,
{
    if let WindowEvent::Focused(focused) = event {
        assert(res@[0] == WindowAction::SetFocused(focused));
        if !focused {
            assert(res@[1] == WindowAction::CheckBlur);
        }
    }
}

/// A new size is kept as it is, unless the window is minimized or, on Windows, maximized.
pub proof fn law_sizes_are_kept(
    platform: Platform,
    label: &str,
    event: WindowEvent,
    minimized: bool,
    maximized: bool,
    width: u32,
    height: u32,
    res: Vec<WindowAction>,
)
    requires
        call_ensures(handle_window_event, (platform, label, event, minimized, maximized), res),
        label@ == "main"@,
    ensures
        res@.contains(WindowAction::PersistSize { width, height }) <==> event
            == (WindowEvent::Resized { width, height }) && !minimized && !(platform is Windows
            && maximized),
        event is Resized ==> res@.len() <= 1,
{
    if event == (WindowEvent::Resized { width, height }) && !minimized && !(platform is Windows
        && maximized) {
        assert(res@[0] == WindowAction::PersistSize { width, height });
    }
}

/// The place of an action in closing the window.
pub open spec fn close_rank(action: WindowAction) -> int {
    match action {
        WindowAction::PreventClose => 0,
        WindowAction::HidePreview => 1,
        WindowAction::ClearVibrancy => 2,
        WindowAction::HidePanel => 3,
        WindowAction::Hide => 3,
        WindowAction::SetHidden(_) => 4,
        WindowAction::SetDock(_) => 5,
        WindowAction::SetNavigation(_) => 6,
        WindowAction::SetNavigationMode(_) => 7,
        _ => -1,
    }
}

/// Closing hides the window in place of closing it: as a panel on macOS, as a window
/// elsewhere. The dock position and the keyboard navigation go with it.
pub proof fn law_closing_hides(
    platform: Platform,
    label: &str,
    event: WindowEvent,
    minimized: bool,
    maximized: bool,
    i: int,
    res: Vec<WindowAction>,
)
    requires
        call_ensures(handle_window_event, (platform, label, event, minimized, maximized), res),
        label@ == "main"@,
    ensures
        res@.contains(WindowAction::PreventClose) <==> event is CloseRequested,
        res@.contains(WindowAction::HidePanel) <==> event is CloseRequested && platform is MacOs,
        res@.contains(WindowAction::Hide) <==> event is CloseRequested && !(platform is MacOs),
        event is CloseRequested ==> {
            &&& res@.len() == 8
            &&& res@.contains(WindowAction::SetHidden(false))
            &&& res@.contains(WindowAction::SetDock(0))
            &&& res@.contains(WindowAction::SetNavigation(false))
            &&& res@.contains(WindowAction::SetNavigationMode(false))
            &&& 0 <= i < 8 ==> close_rank(res@[i]) == i
        },
{
    if event is CloseRequested {
        assert(res@[0] == WindowAction::PreventClose);
        assert(res@[3] is HidePanel || res@[3] is Hide);
        assert(res@[4] == WindowAction::SetHidden(false));
        assert(res@[5] == WindowAction::SetDock(0));
        assert(res@[6] == WindowAction::SetNavigation(false));
        assert(res@[7] == WindowAction::SetNavigationMode(false));
    }
}

/// A resize to at least 200 pixels in both directions is noted with its time; a smaller
/// one changes nothing. Only the first one since the last store starts to wait.
pub proof fn law_resizes_are_noted(
    keeper: &mut SizeKeeper,
    width: u32,
    height: u32,
    now: u64,
    res: bool,
)
    requires
        call_ensures(SizeKeeper::resize_at, (keeper, width, height, now), res),
    ensures
        res <==> width >= 200 && height >= 200 && !old(keeper).pending,
        width >= 200 && height >= 200 ==> {
            &&& final(keeper).pending
            &&& final(keeper).width == width
            &&& final(keeper).height == height
            &&& final(keeper).last_event_ms == now
        },
        width < 200 || height < 200 ==> *final(keeper) == *old(keeper),
{
}

/// The same at the clock's present reading.
pub proof fn law_resizes_are_noted_by_the_clock(
    keeper: &mut SizeKeeper,
    width: u32,
    height: u32,
    res: bool,
)
    requires
        call_ensures(persist_window_size, (keeper, width, height), res),
    ensures
        res <==> width >= 200 && height >= 200 && !old(keeper).pending,
        width >= 200 && height >= 200 ==> {
            &&& final(keeper).pending
            &&& final(keeper).width == width
            &&& final(keeper).height == height
        },
        width < 200 || height < 200 ==> *final(keeper) == *old(keeper),
{
}

/// Whether the values store this width and height, each under its own key and in decimal
/// notation.
pub open spec fn store_size(writes: Seq<SettingWrite>, width: u32, height: u32) -> bool {
    &&& writes.len() == 2
    &&& writes[0].key@ == "app.window_width"@
    &&& writes[1].key@ == "app.window_height"@
    &&& crate::decimal::digits_value(writes[0].value@) == width
    &&& crate::decimal::all_digits(writes[0].value@)
    &&& crate::decimal::digits_value(writes[1].value@) == height
    &&& crate::decimal::all_digits(writes[1].value@)
}

/// A size is stored exactly where nothing has changed it for 200 milliseconds, and it is
/// the noted one.
pub proof fn law_sizes_are_stored_when_quiet(
    keeper: SizeKeeper,
    now: u64,
    res: Option<Vec<SettingWrite>>,
)
    requires
        call_ensures(SizeKeeper::save_at, (&keeper, now), res),
    ensures
        res is Some <==> now - keeper.last_event_ms >= 200,
        res matches Some(writes) ==> store_size(writes@, keeper.width, keeper.height),
{
    if let Some(writes) = res {
        lemma_size_is_stored(writes@, keeper.width, keeper.height);
    }
}

proof fn lemma_size_is_stored(writes: Seq<SettingWrite>, width: u32, height: u32)
    requires
        crate::settings_store::write_views(writes) == crate::window_events::size_writes(
            width,
            height,
        ),
    ensures
        store_size(writes, width, height),
{
    let views = crate::settings_store::write_views(writes);
    assert(views.len() == 2);
    assert(writes[0]@ == views[0]);
    assert(writes[1]@ == views[1]);
    crate::decimal::lemma_decimal_reads_back(width as nat, width as nat);
    crate::decimal::lemma_decimal_reads_back(height as nat, height as nat);
    crate::decimal::lemma_decimal_has_no_sign(width as nat);
    crate::decimal::lemma_decimal_has_no_sign(height as nat);
}

/// What the clock's present reading lets be stored is the noted size.
pub proof fn law_stored_size_is_the_noted_one(keeper: SizeKeeper, res: Option<Vec<SettingWrite>>)
    requires
        call_ensures(SizeKeeper::save, (&keeper,), res),
    ensures
        res matches Some(writes) ==> store_size(writes@, keeper.width, keeper.height),
{
    if let Some(writes) = res {
        lemma_size_is_stored(writes@, keeper.width, keeper.height);
    }
}

/// What is stored of a size is read as that size again.
pub proof fn law_stored_size_is_read_back(
    keeper: SizeKeeper,
    now: u64,
    width_text: &str,
    height_text: &str,
    res: Option<Vec<SettingWrite>>,
    width: Option<u32>,
    height: Option<u32>,
)
    requires
        call_ensures(SizeKeeper::save_at, (&keeper, now), res),
        res matches Some(writes) ==> width_text@ == writes@[0].value@ && height_text@
            == writes@[1].value@,
        call_ensures(parse_u32, (width_text,), width),
        call_ensures(parse_u32, (height_text,), height),
    ensures
        res is Some ==> width == Some(keeper.width) && height == Some(keeper.height),
{
    if let Some(writes) = res {
        let views = crate::settings_store::write_views(writes@);
        assert(views.len() == 2);
        assert(writes@[0]@ == views[0]);
        assert(writes@[1]@ == views[1]);
        crate::decimal::lemma_decimal_reads_back(keeper.width as nat, u32::MAX as nat);
        crate::decimal::lemma_decimal_reads_back(keeper.height as nat, u32::MAX as nat);
    }
}

/// A new keeper waits for nothing; one whose size is stored waits no more, and keeps the
/// rest.
pub proof fn law_waiting_ends(fresh: SizeKeeper, keeper: &mut SizeKeeper, res: ())
    requires
        call_ensures(SizeKeeper::new, (), fresh),
        call_ensures(SizeKeeper::saved, (keeper,), res),
    ensures
        !fresh.pending,
        !final(keeper).pending,
        final(keeper).width == old(keeper).width,
        final(keeper).height == old(keeper).height,
        final(keeper).last_event_ms == old(keeper).last_event_ms,
        crate::window_events::SIZE_CHECK_MS == 250,
{
}

/// The loss of the focus is followed up exactly on Windows, where it is not ignored, the
/// window is not pinned, no button is down, and the window was shown at least half a
/// second ago.
pub proof fn law_blur_is_followed_up(
    platform: Platform,
    seen: BlurObservation,
    now: u64,
    res: bool,
    by_clock: bool,
)
    requires
        call_ensures(blur_at, (platform, &seen, now), res),
        call_ensures(handle_blur, (platform, &seen), by_clock),
    ensures
        res <==> platform is Windows && !seen.ignored && !seen.pinned && !seen.mouse_down && now
            - seen.last_show_ms >= 500,
        by_clock ==> platform is Windows && !seen.ignored && !seen.pinned && !seen.mouse_down,
        crate::window_events::BLUR_DELAY_MS == 200,
{
}

/// A window that lost the focus is hidden exactly where it is known to lack the focus
/// still, no button is down, and it is neither docked, ignored nor pinned. The keyboard is
/// given back with it.
pub proof fn law_blur_hides(seen: BlurCheck, res: Vec<WindowAction>)
    requires
        call_ensures(settle_blur, (&seen,), res),
    ensures
        res@.contains(WindowAction::Hide) <==> {
            &&& seen.focused == Some(false)
            &&& !seen.mouse_down
            &&& !seen.flags.hidden
            &&& seen.flags.dock == 0
            &&& !seen.ignored
            &&& !seen.pinned
        },
        res@.len() > 0 <==> res@.contains(WindowAction::Hide),
        res@.len() > 0 ==> {
            &&& res@.len() == 6
            &&& res@[0] == WindowAction::HidePreview
            &&& res@[1] == WindowAction::ClearVibrancy
            &&& res@[2] == WindowAction::Hide
            &&& res@[3] == WindowAction::SetNavigation(false)
            &&& res@[4] == WindowAction::ReleaseModifiers
            &&& res@[5] == WindowAction::RestorePreviousFocus
        },
{
    if res@.len() > 0 {
        assert(res@[2] == WindowAction::Hide);
    }
}

/// The time from one reading to a later one is their distance; a clock that was set back
/// counts as no time.
pub proof fn law_time_is_a_distance(now: u64, earlier: u64, res: u64)
    requires
        call_ensures(elapsed_ms, (now, earlier), res),
    ensures
        now >= earlier ==> res + earlier == now,
        now < earlier ==> res == 0,
{
}

} // verus!
