//! Laws of listening for the paste shortcut.

use vstd::prelude::*;

use crate::paste_key_monitor::{
    cmd_v_callback, plays_at, react, should_play_for_physical_cmd_v, start_paste_key_monitor,
    suppress_from, suppress_paste_sound_briefly, try_start_event_tap, MonitorStart, PasteSoundMute,
    TapCall, TapContext, TapEvent, TapReaction, TapStage,
};

verus! {

/// After a paste of the shell's own, a paste by keyboard gets a sound again a quarter of a
/// second later, and not before.
pub proof fn law_own_pastes_mute_for_a_moment(
    mute: &mut PasteSoundMute,
    now: u64,
    later: u64,
    res: (),
    sounds: bool,
)
    requires
        call_ensures(suppress_from, (mute, now), res),
        call_ensures(plays_at, (final(mute), later), sounds),
        now + 250 <= u64::MAX,
    ensures
        sounds <==> later >= now + 250,
        final(mute).until_ms == now + 250,
{
}

/// A mute ends at its time: a sound is played from then on, and from the beginning where
/// nothing was muted.
pub proof fn law_mute_ends_at_its_time(
    fresh: PasteSoundMute,
    mute: PasteSoundMute,
    now: u64,
    first: bool,
    sounds: bool,
)
    requires
        call_ensures(PasteSoundMute::new, (), fresh),
        call_ensures(plays_at, (&fresh, now), first),
        call_ensures(plays_at, (&mute, now), sounds),
    ensures
        first,
        sounds <==> now >= mute.until_ms,
{
}

/// The clock's reading decides in the same way: a mute that is over everywhere lets every
/// sound through, and one from the clock lasts a quarter of a second.
pub proof fn law_mute_goes_by_the_clock(
    fresh: PasteSoundMute,
    mute: &mut PasteSoundMute,
    sounds: bool,
    res: (),
)
    requires
        call_ensures(PasteSoundMute::new, (), fresh),
        call_ensures(should_play_for_physical_cmd_v, (&fresh,), sounds),
        call_ensures(suppress_paste_sound_briefly, (mute,), res),
    ensures
        sounds,
        final(mute).until_ms >= 250,
{
}

/// The low sixteen bits of a key code.
pub open spec fn low_bits(keycode: i64) -> int {
    (keycode as int) % 0x1_0000
}

/// A sound is played exactly for a first press of the paste key with the command key held,
/// while nothing mutes it and the application is up.
pub proof fn law_paste_key_sounds(
    event: TapEvent,
    context: TapContext,
    in_time: bool,
    res: TapReaction,
)
    requires
        call_ensures(react, (&event, &context, in_time), res),
    ensures
        res is PlayPasteSound <==> {
            &&& event.event_type == 10
            &&& event.present
            &&& event.autorepeat == 0
            &&& low_bits(event.keycode) == context.paste_key
            &&& event.flags & 0x10_0000 == 0x10_0000
            &&& in_time
            &&& context.app_running
        },
{
    let code = event.keycode;
    assert((code as u16) as i64 == code % 0x1_0000) by (bit_vector);
    let flags = event.flags;
    assert(flags & 0x10_0000 != 0 <==> flags & 0x10_0000 == 0x10_0000) by (bit_vector);
}

/// A tap that the system has disabled is switched on again exactly where listening is
/// still permitted, and given up exactly where it is not; without a tap, and on every
/// other event, neither happens.
pub proof fn law_disabled_taps_need_permission(
    event: TapEvent,
    context: TapContext,
    in_time: bool,
    res: TapReaction,
)
    requires
        call_ensures(react, (&event, &context, in_time), res),
    ensures
        res is Rearm <==> (event.event_type == 0xFFFF_FFFE || event.event_type == 0xFFFF_FFFF)
            && context.tap_active && context.permitted,
        res is StopListening <==> (event.event_type == 0xFFFF_FFFE || event.event_type
            == 0xFFFF_FFFF) && context.tap_active && !context.permitted,
{
}

/// The callback reacts as it would with or without a sound in time, and without a mute
/// with one.
pub proof fn law_callback_reacts(
    event: TapEvent,
    context: TapContext,
    mute: PasteSoundMute,
    res: TapReaction,
    in_time: TapReaction,
    too_early: TapReaction,
)
    requires
        call_ensures(cmd_v_callback, (&event, &context, &mute), res),
        call_ensures(react, (&event, &context, true), in_time),
        call_ensures(react, (&event, &context, false), too_early),
    ensures
        res == in_time || res == too_early,
        mute.until_ms == 0 ==> res == in_time,
{
}

/// A tap is created exactly once listening is permitted, only to listen, and for key
/// presses alone.
pub proof fn law_tap_only_listens(
    stage: TapStage,
    succeeded: bool,
    option: u32,
    events: u64,
    res: (TapStage, Vec<TapCall>),
)
    requires
        call_ensures(try_start_event_tap, (stage, succeeded), res),
    ensures
        res.1@.contains(TapCall::CreateTap { option, events }) <==> stage is Idle && succeeded
            && option == 1 && events == 1024,
{
    if stage is Idle && succeeded {
        assert(res.1@[0] is CreateTap);
    }
}

/// A tap goes from its creation over its source to listening as long as each step
/// succeeds; whatever fails or ends leads back to the beginning.
pub proof fn law_tap_goes_through_its_stages(
    stage: TapStage,
    succeeded: bool,
    res: (TapStage, Vec<TapCall>),
)
    requires
        call_ensures(try_start_event_tap, (stage, succeeded), res),
    ensures
        res.0 is Creating <==> stage is Idle && succeeded,
        res.0 is AddingSource <==> stage is Creating && succeeded,
        res.0 is Listening <==> stage is AddingSource && succeeded,
        res.1@.contains(TapCall::CreateSource) <==> res.0 is AddingSource,
        res.1@.contains(TapCall::PublishTap) <==> res.0 is AddingSource,
        res.1@.contains(TapCall::AddSource) <==> res.0 is Listening,
        res.1@.contains(TapCall::EnableTap) <==> res.0 is Listening,
        res.1@.contains(TapCall::RunLoop) <==> res.0 is Listening,
        res.1@.len() > 0 && res.0 is Listening ==> res.1@.last() == TapCall::RunLoop,
        crate::paste_key_monitor::RETRY_SECONDS == 2,
{
    if stage is Creating && succeeded {
        assert(res.1@[0] == TapCall::PublishTap);
        assert(res.1@[1] == TapCall::CreateSource);
    }
    if stage is AddingSource && succeeded {
        assert(res.1@[0] == TapCall::AddSource);
        assert(res.1@[1] == TapCall::EnableTap);
        assert(res.1@[2] == TapCall::RunLoop);
    }
}

/// What was created is taken down again, and only that: the tap where it was published,
/// the source where it was added. Events no longer reach the tap when it goes.
pub proof fn law_tap_is_taken_down(
    stage: TapStage,
    succeeded: bool,
    res: (TapStage, Vec<TapCall>),
)
    requires
        call_ensures(try_start_event_tap, (stage, succeeded), res),
    ensures
        ({
            let ended = stage is Listening || stage is AddingSource && !succeeded;
            let calls = res.1@;
            &&& calls.contains(TapCall::UnpublishTap) <==> ended
            &&& calls.contains(TapCall::InvalidateTap) <==> ended
            &&& calls.contains(TapCall::ReleaseTap) <==> ended
            &&& calls.contains(TapCall::RemoveSource) <==> stage is Listening
            &&& calls.contains(TapCall::ReleaseSource) <==> stage is Listening
            &&& ended ==> calls[0] == TapCall::UnpublishTap && calls.last() == TapCall::ReleaseTap
                && calls[calls.len() - 2] == TapCall::InvalidateTap
            &&& stage is Listening ==> calls.len() == 5 && calls[1] == TapCall::RemoveSource
                && calls[2] == TapCall::ReleaseSource
            &&& !succeeded && !ended ==> calls.len() == 0
        }),
{
    let calls = res.1@;
    if stage is Listening || stage is AddingSource && !succeeded {
        assert(calls[0] == TapCall::UnpublishTap);
        assert(calls[calls.len() - 1] == TapCall::ReleaseTap);
        assert(calls[calls.len() - 2] == TapCall::InvalidateTap);
        if stage is Listening {
            assert(calls[1] == TapCall::RemoveSource);
            assert(calls[2] == TapCall::ReleaseSource);
        }
    }
}

/// Of two claims in a row only the first can get the start of the monitor.
pub proof fn law_monitor_starts_once(
    start: &mut MonitorStart,
    again: &mut MonitorStart,
    first: bool,
    second: bool,
)
    requires
        call_ensures(start_paste_key_monitor, (start,), first),
        call_ensures(start_paste_key_monitor, (again,), second),
        *again == *final(start),
    ensures
        first <==> !old(start).started,
        !second,
{
}

} // verus!
