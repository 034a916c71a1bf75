//! Listening for the paste shortcut on the keyboard, to play a sound with it.
//!
//! The listener is an event tap that only watches. A paste that the shell performs
//! itself mutes it for a moment, as that paste has its own sound.

use vstd::prelude::*;

use crate::clock::now_ms;

verus! {

/// Type of a key press.
pub const EVENT_KEY_DOWN: u32 = 10;

/// The system disabled the tap because it was slow.
pub const EVENT_TAP_DISABLED_BY_TIMEOUT: u32 = 0xFFFF_FFFE;

/// The system disabled the tap on user input.
pub const EVENT_TAP_DISABLED_BY_USER_INPUT: u32 = 0xFFFF_FFFF;

/// Flag of a held command key.
pub const FLAG_COMMAND: u64 = 0x10_0000;

/// Option of a tap that watches events without being able to change them.
pub const TAP_LISTEN_ONLY: u32 = 1;

/// The events that the tap gets, one bit for each type: key presses alone.
pub const TAP_EVENTS: u64 = 0x400;

/// How long a paste of the shell's own mutes the listener.
pub const SUPPRESS_MS: u64 = 250;

/// How long the monitor waits before it tries to listen again, in seconds.
pub const RETRY_SECONDS: u64 = 2;

/// The time until which the listener is muted, in milliseconds since the epoch.
#[derive(Clone, Copy, Debug, PartialEq, Eq, Structural)]
pub struct PasteSoundMute {
    pub until_ms: u64,
}

impl PasteSoundMute {
    /// A mute that covers nothing.
    pub fn new() -> (res: PasteSoundMute)
        ensures
            res.until_ms == 0,
    {
        PasteSoundMute { until_ms: 0 }
    }

    /// Whether a paste at `now` gets a sound.
    pub open spec fn open_at(self, now: u64) -> bool {
        now >= self.until_ms
    }
}

/// The mute once it starts at `now`.
pub open spec fn muted_from(now: u64) -> PasteSoundMute {
    PasteSoundMute {
        until_ms: if now + SUPPRESS_MS > u64::MAX {
            u64::MAX
        } else {
            (now + SUPPRESS_MS) as u64
        },
    }
}

/// Mutes the listener for a moment, from `now` on.
pub fn suppress_from(mute: &mut PasteSoundMute, now: u64)
    ensures
        *final(mute) == muted_from(now),
{
    mute.until_ms = now.saturating_add(SUPPRESS_MS);
}

/// Mutes the listener for a moment, from the clock's present reading on.
pub fn suppress_paste_sound_briefly(mute: &mut PasteSoundMute)
    ensures
        exists|now: u64| *final(mute) == #[trigger] muted_from(now),
{
    let now: u64 = now_ms();
    suppress_from(mute, now);
}

/// Muting covers exactly the time before its end: nothing within it gets a sound,
/// everything after it does.
pub proof fn lemma_muting_covers_its_span(now: u64, later: u64)
    requires
        now + SUPPRESS_MS <= u64::MAX,
    ensures
        muted_from(now).open_at(later) <==> later - now >= SUPPRESS_MS,
{
}

/// An event as the tap delivers it.
#[derive(Clone, Copy, Debug, PartialEq, Eq, Structural)]
pub struct TapEvent {
    pub event_type: u32,
    /// Whether there is an event to read the rest from.
    pub present: bool,
    pub flags: u64,
    pub keycode: i64,
    pub autorepeat: i64,
}

/// What is known when an event arrives.
#[derive(Clone, Copy, Debug, PartialEq, Eq, Structural)]
pub struct TapContext {
    /// Whether a tap is active.
    pub tap_active: bool,
    /// Whether the system still permits listening.
    pub permitted: bool,
    /// Whether the application is up.
    pub app_running: bool,
    /// The key that pastes.
    pub paste_key: u16,
}

/// What is done about an event. The event itself is always passed on.
#[derive(Clone, Copy, Debug, PartialEq, Eq, Structural)]
pub enum TapReaction {
    Nothing,
    /// Switches the tap off and ends listening.
    StopListening,
    /// Switches the tap on again.
    Rearm,
    PlayPasteSound,
}

impl TapEvent {
    /// Whether the system has disabled the tap.
    pub open spec fn is_disabling(self) -> bool {
        self.event_type == EVENT_TAP_DISABLED_BY_TIMEOUT || self.event_type
            == EVENT_TAP_DISABLED_BY_USER_INPUT
    }

    /// Whether this is a first press of the paste key with the command key held.
    /// Of the key code the low sixteen bits count.
    pub open spec fn is_paste(self, paste_key: u16) -> bool {
        &&& self.event_type == EVENT_KEY_DOWN
        &&& self.present
        &&& self.autorepeat == 0
        &&& self.keycode as u16 == paste_key
        &&& self.flags & FLAG_COMMAND != 0
    }
}

/// The reaction to an event, where `in_time` is whether a paste gets a sound.
///
/// A tap that was disabled because the permission is gone must not be switched on
/// again: it would slow down input for the whole system.
pub open spec fn reaction(event: TapEvent, context: TapContext, in_time: bool) -> TapReaction {
    if event.is_disabling() {
        if !context.tap_active {
            TapReaction::Nothing
        } else if !context.permitted {
            TapReaction::StopListening
        } else {
            TapReaction::Rearm
        }
    } else if event.is_paste(context.paste_key) && in_time && context.app_running {
        TapReaction::PlayPasteSound
    } else {
        TapReaction::Nothing
    }
}

/// Whether a paste at `now` gets a sound.
pub fn plays_at(mute: &PasteSoundMute, now: u64) -> (res: bool)
    ensures
        res == mute.open_at(now),
{
    now >= mute.until_ms
}

/// Whether a paste at the clock's present reading gets a sound.
pub fn should_play_for_physical_cmd_v(mute: &PasteSoundMute) -> (res: bool)
    ensures
        exists|now: u64| res == #[trigger] mute.open_at(now),
{
    let now: u64 = now_ms();
    plays_at(mute, now)
}

/// Decides the reaction to an event; `in_time` is whether a paste gets a sound.
pub fn react(event: &TapEvent, context: &TapContext, in_time: bool) -> (res: TapReaction)
    ensures
        res == reaction(*event, *context, in_time),
{
    if event.event_type == EVENT_TAP_DISABLED_BY_TIMEOUT || event.event_type
        == EVENT_TAP_DISABLED_BY_USER_INPUT {
        if !context.tap_active {
            return TapReaction::Nothing;
        }
        if !context.permitted {
            return TapReaction::StopListening;
        }
        return TapReaction::Rearm;
    }
    if event.event_type == EVENT_KEY_DOWN && event.present {
        let keycode: u16 = #[verifier::truncate]
        (event.keycode as u16);
        if event.autorepeat == 0 && keycode == context.paste_key && (event.flags & FLAG_COMMAND)
            != 0 && in_time && context.app_running {
            return TapReaction::PlayPasteSound;
        }
    }
    TapReaction::Nothing
}

/// Decides the reaction to an event at the clock's present reading.
pub fn cmd_v_callback(event: &TapEvent, context: &TapContext, mute: &PasteSoundMute) -> (res:
    TapReaction)
    ensures
        exists|now: u64| res == reaction(*event, *context, #[trigger] mute.open_at(now)),
{
    let in_time = should_play_for_physical_cmd_v(mute);
    react(event, context, in_time)
}

/// Without the permission the tap is never switched on again.
pub proof fn lemma_no_rearming_without_permission(
    event: TapEvent,
    context: TapContext,
    in_time: bool,
)
    requires
        !context.permitted,
    ensures
        reaction(event, context, in_time) != TapReaction::Rearm,
        event.is_disabling() && context.tap_active ==> reaction(event, context, in_time)
            == TapReaction::StopListening,
{
}

/// How far the monitor has come with its tap. In every stage but `Idle` one call is
/// under way, whose outcome decides the next stage.
#[derive(Clone, Copy, Debug, PartialEq, Eq, Structural)]
pub enum TapStage {
    /// There is no tap, and the permission is being asked for.
    Idle,
    /// The tap is being created.
    Creating,
    /// The run loop source for the tap is being created.
    AddingSource,
    /// The run loop runs, until listening ends.
    Listening,
}

/// A call to the system about the tap.
#[derive(Clone, Copy, Debug, PartialEq, Eq, Structural)]
pub enum TapCall {
    /// Creates a tap with an option, for the events of a mask.
    CreateTap { option: u32, events: u64 },
    /// Lets the reaction to events reach the tap.
    PublishTap,
    UnpublishTap,
    CreateSource,
    AddSource,
    EnableTap,
    RunLoop,
    RemoveSource,
    ReleaseSource,
    InvalidateTap,
    ReleaseTap,
}

/// The stage after the outcome of the call that is under way. For a stage other
/// than `Listening`, `succeeded` is whether the permission was there or the thing
/// was created.
pub open spec fn next_stage(stage: TapStage, succeeded: bool) -> TapStage {
    match stage {
        TapStage::Idle if succeeded => TapStage::Creating,
        TapStage::Creating if succeeded => TapStage::AddingSource,
        TapStage::AddingSource if succeeded => TapStage::Listening,
        _ => TapStage::Idle,
    }
}

/// The calls to make after that outcome.
pub open spec fn tap_calls(stage: TapStage, succeeded: bool) -> Seq<TapCall> {
    match (stage, succeeded) {
        (TapStage::Idle, true) => {
            seq![TapCall::CreateTap { option: TAP_LISTEN_ONLY, events: TAP_EVENTS }]
        },
        (TapStage::Creating, true) => seq![TapCall::PublishTap, TapCall::CreateSource],
        (TapStage::AddingSource, true) => {
            seq![TapCall::AddSource, TapCall::EnableTap, TapCall::RunLoop]
        },
        (TapStage::AddingSource, false) => {
            seq![TapCall::UnpublishTap, TapCall::InvalidateTap, TapCall::ReleaseTap]
        },
        (TapStage::Listening, _) => {
            seq![
                TapCall::UnpublishTap,
                TapCall::RemoveSource,
                TapCall::ReleaseSource,
                TapCall::InvalidateTap,
                TapCall::ReleaseTap,
            ]
        },
        _ => seq![],
    }
}

/// One step in installing the tap, serving it, and taking it down: the next stage,
/// and the calls that lead into it.
pub fn try_start_event_tap(stage: TapStage, succeeded: bool) -> (res: (TapStage, Vec<TapCall>))
    ensures
        res.0 == next_stage(stage, succeeded),
        res.1@ == tap_calls(stage, succeeded),
{
    match (stage, succeeded) {
        (TapStage::Idle, true) => (
            TapStage::Creating,
            vec![TapCall::CreateTap { option: TAP_LISTEN_ONLY, events: TAP_EVENTS }],
        ),
        (TapStage::Creating, true) => (
            TapStage::AddingSource,
            vec![TapCall::PublishTap, TapCall::CreateSource],
        ),
        (TapStage::AddingSource, true) => (
            TapStage::Listening,
            vec![TapCall::AddSource, TapCall::EnableTap, TapCall::RunLoop],
        ),
        (TapStage::AddingSource, false) => (
            TapStage::Idle,
            vec![TapCall::UnpublishTap, TapCall::InvalidateTap, TapCall::ReleaseTap],
        ),
        (TapStage::Listening, _) => (
            TapStage::Idle,
            vec![
                TapCall::UnpublishTap,
                TapCall::RemoveSource,
                TapCall::ReleaseSource,
                TapCall::InvalidateTap,
                TapCall::ReleaseTap,
            ],
        ),
        _ => (TapStage::Idle, Vec::new()),
    }
}

/// What the monitor holds of the system.
pub struct TapHoldings {
    pub tap: bool,
    pub valid: bool,
    pub published: bool,
    pub source: bool,
    pub added: bool,
}

/// What the monitor holds in a stage, before the outcome of its call.
pub open spec fn holdings_in(stage: TapStage) -> TapHoldings {
    let tap = stage == TapStage::AddingSource || stage == TapStage::Listening;
    let source = stage == TapStage::Listening;
    TapHoldings { tap, valid: tap, published: tap, source, added: source }
}

/// The holdings with what the call under way in `stage` created.
pub open spec fn holdings_gained(stage: TapStage, succeeded: bool) -> TapHoldings {
    let held = holdings_in(stage);
    match (stage, succeeded) {
        (TapStage::Creating, true) => TapHoldings { tap: true, valid: true, ..held },
        (TapStage::AddingSource, true) => TapHoldings { source: true, ..held },
        _ => held,
    }
}

/// The holdings after a call. What a call creates counts from its outcome on.
pub open spec fn holdings_after(held: TapHoldings, call: TapCall) -> TapHoldings {
    match call {
        TapCall::PublishTap => TapHoldings { published: true, ..held },
        TapCall::UnpublishTap => TapHoldings { published: false, ..held },
        TapCall::AddSource => TapHoldings { added: true, ..held },
        TapCall::RemoveSource => TapHoldings { added: false, ..held },
        TapCall::ReleaseSource => TapHoldings { source: false, ..held },
        TapCall::InvalidateTap => TapHoldings { valid: false, ..held },
        TapCall::ReleaseTap => TapHoldings { tap: false, ..held },
        _ => held,
    }
}

/// The holdings after calls.
pub open spec fn holdings_after_all(held: TapHoldings, calls: Seq<TapCall>) -> TapHoldings
    decreases calls.len(),
{
    if calls.len() == 0 {
        held
    } else {
        holdings_after(holdings_after_all(held, calls.drop_last()), calls.last())
    }
}

/// Whether a call may be made with these holdings: nothing is used or released that
/// is not held, and nothing is released that events still reach.
pub open spec fn may_call(held: TapHoldings, call: TapCall) -> bool {
    match call {
        TapCall::CreateTap { .. } => !held.tap,
        TapCall::PublishTap => held.tap && held.valid,
        TapCall::UnpublishTap => held.published,
        TapCall::CreateSource => held.tap && held.valid && !held.source,
        TapCall::AddSource => held.source && !held.added,
        TapCall::EnableTap | TapCall::RunLoop => held.tap && held.valid && held.added,
        TapCall::RemoveSource => held.added,
        TapCall::ReleaseSource => held.source && !held.added,
        TapCall::InvalidateTap => held.tap && held.valid && !held.published && !held.source,
        TapCall::ReleaseTap => held.tap && !held.valid && !held.published,
    }
}

proof fn lemma_holdings_step(held: TapHoldings, calls: Seq<TapCall>, i: int)
    requires
        0 <= i < calls.len(),
    ensures
        holdings_after_all(held, calls.take(i + 1)) == holdings_after(
            holdings_after_all(held, calls.take(i)),
            calls[i],
        ),
{
    assert(calls.take(i + 1).drop_last() =~= calls.take(i));
}

/// The calls of a step may be made in their order, and lead to exactly what the
/// next stage holds.
pub proof fn lemma_tap_calls_are_balanced(stage: TapStage, succeeded: bool)
    ensures
        ({
            let held = holdings_gained(stage, succeeded);
            let calls = tap_calls(stage, succeeded);
            &&& forall|i: int|
                0 <= i < calls.len() ==> may_call(
                    holdings_after_all(held, calls.take(i)),
                    #[trigger] calls[i],
                )
            &&& holdings_after_all(held, calls) == holdings_in(next_stage(stage, succeeded))
        }),
{
    let held = holdings_gained(stage, succeeded);
    let calls = tap_calls(stage, succeeded);
    assert(holdings_after_all(held, calls.take(0)) == held);
    if calls.len() >= 1 {
        lemma_holdings_step(held, calls, 0);
    }
    if calls.len() >= 2 {
        lemma_holdings_step(held, calls, 1);
    }
    if calls.len() >= 3 {
        lemma_holdings_step(held, calls, 2);
    }
    if calls.len() == 5 {
        lemma_holdings_step(held, calls, 3);
        lemma_holdings_step(held, calls, 4);
    }
    assert(calls.take(calls.len() as int) =~= calls);
}

/// A tap is created only with the permission, only to listen, and for key presses
/// alone.
pub proof fn lemma_tap_only_watches_key_presses(stage: TapStage, succeeded: bool, event_type: u32)
    requires
        event_type < 64,
    ensures
        forall|i: int|
            #![trigger tap_calls(stage, succeeded)[i]]
            0 <= i < tap_calls(stage, succeeded).len() ==> (tap_calls(
                stage,
                succeeded,
            )[i] matches TapCall::CreateTap { option, events } ==> stage == TapStage::Idle
                && succeeded && option == TAP_LISTEN_ONLY && events == TAP_EVENTS),
        TAP_EVENTS & (1u64 << event_type) != 0 <==> event_type == EVENT_KEY_DOWN,
        tap_calls(TapStage::Idle, false) == Seq::<TapCall>::empty(),
        next_stage(TapStage::Idle, false) == TapStage::Idle,
{
    assert(0x400u64 & (1u64 << event_type) != 0 <==> event_type == 10) by (bit_vector)
        requires
            event_type < 64,
    ;
}

/// Whether the monitor runs already.
#[derive(Clone, Copy, Debug, PartialEq, Eq, Structural)]
pub struct MonitorStart {
    pub started: bool,
}

/// Claims the start of the monitor: only the first claim gets it.
pub fn start_paste_key_monitor(start: &mut MonitorStart) -> (res: bool)
    ensures
        res == !old(start).started,
        final(start).started,
{
    if start.started {
        return false;
    }
    start.started = true;
    true
}

} // verus!
