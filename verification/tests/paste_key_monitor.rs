use tiez_shell::paste_key_monitor::{
    cmd_v_callback, plays_at, react, should_play_for_physical_cmd_v, start_paste_key_monitor,
    suppress_from, suppress_paste_sound_briefly, try_start_event_tap, MonitorStart, PasteSoundMute,
    TapCall, TapContext, TapEvent, TapReaction, TapStage, EVENT_KEY_DOWN,
    EVENT_TAP_DISABLED_BY_TIMEOUT, EVENT_TAP_DISABLED_BY_USER_INPUT, FLAG_COMMAND,
};

const PASTE: TapEvent = TapEvent {
    event_type: EVENT_KEY_DOWN,
    present: true,
    flags: FLAG_COMMAND | 0x100,
    keycode: 9,
    autorepeat: 0,
};

const LISTENING: TapContext =
    TapContext { tap_active: true, permitted: true, app_running: true, paste_key: 9 };

#[test]
fn a_paste_of_the_shell_mutes_the_listener_for_a_moment() {
    let mut mute = PasteSoundMute::new();
    assert!(plays_at(&mute, 0));
    suppress_from(&mut mute, 1000);
    assert!(!plays_at(&mute, 1000));
    assert!(!plays_at(&mute, 1249));
    assert!(plays_at(&mute, 1250));
    suppress_from(&mut mute, u64::MAX - 10);
    assert_eq!(mute.until_ms, u64::MAX);
}

#[test]
fn muting_by_the_clock_holds_now() {
    let mut mute = PasteSoundMute::new();
    assert!(should_play_for_physical_cmd_v(&mute));
    assert_eq!(cmd_v_callback(&PASTE, &LISTENING, &mute), TapReaction::PlayPasteSound);
    suppress_paste_sound_briefly(&mut mute);
    assert!(mute.until_ms > 1_600_000_000_000);
    mute.until_ms += 1_000_000;
    assert!(!should_play_for_physical_cmd_v(&mute));
    assert_eq!(cmd_v_callback(&PASTE, &LISTENING, &mute), TapReaction::Nothing);
}

#[test]
fn only_a_first_press_of_the_paste_keys_has_a_sound() {
    assert_eq!(react(&PASTE, &LISTENING, true), TapReaction::PlayPasteSound);
    assert_eq!(react(&PASTE, &LISTENING, false), TapReaction::Nothing);
    let others = [
        TapEvent { autorepeat: 1, ..PASTE },
        TapEvent { keycode: 8, ..PASTE },
        TapEvent { flags: 0x100, ..PASTE },
        TapEvent { present: false, ..PASTE },
        TapEvent { event_type: 11, ..PASTE },
    ];
    for event in others {
        assert_eq!(react(&event, &LISTENING, true), TapReaction::Nothing);
    }
    assert_eq!(
        react(&TapEvent { keycode: 0x1_0009, ..PASTE }, &LISTENING, true),
        TapReaction::PlayPasteSound
    );
    let early = TapContext { app_running: false, ..LISTENING };
    assert_eq!(react(&PASTE, &early, true), TapReaction::Nothing);
}

#[test]
fn a_disabled_tap_comes_back_only_with_the_permission() {
    for event_type in [EVENT_TAP_DISABLED_BY_TIMEOUT, EVENT_TAP_DISABLED_BY_USER_INPUT] {
        let event = TapEvent { event_type, ..PASTE };
        assert_eq!(react(&event, &LISTENING, true), TapReaction::Rearm);
        let revoked = TapContext { permitted: false, ..LISTENING };
        assert_eq!(react(&event, &revoked, true), TapReaction::StopListening);
        let gone = TapContext { tap_active: false, ..revoked };
        assert_eq!(react(&event, &gone, true), TapReaction::Nothing);
    }
}

#[test]
fn the_tap_is_taken_down_again() {
    let (stage, calls) = try_start_event_tap(TapStage::Idle, false);
    assert_eq!((stage, calls.len()), (TapStage::Idle, 0));
    let (stage, calls) = try_start_event_tap(TapStage::Idle, true);
    assert_eq!(
        (stage, calls),
        (TapStage::Creating, vec![TapCall::CreateTap { option: 1, events: 1 << 10 }])
    );
    let (stage, calls) = try_start_event_tap(TapStage::Creating, false);
    assert_eq!((stage, calls.len()), (TapStage::Idle, 0));
    let (stage, calls) = try_start_event_tap(TapStage::Creating, true);
    assert_eq!(
        (stage, calls),
        (TapStage::AddingSource, vec![TapCall::PublishTap, TapCall::CreateSource])
    );
    let (stage, calls) = try_start_event_tap(TapStage::AddingSource, false);
    assert_eq!(
        (stage, calls),
        (
            TapStage::Idle,
            vec![TapCall::UnpublishTap, TapCall::InvalidateTap, TapCall::ReleaseTap]
        )
    );
    let (stage, calls) = try_start_event_tap(TapStage::AddingSource, true);
    assert_eq!(
        (stage, calls),
        (
            TapStage::Listening,
            vec![TapCall::AddSource, TapCall::EnableTap, TapCall::RunLoop]
        )
    );
    let (stage, calls) = try_start_event_tap(TapStage::Listening, true);
    assert_eq!(
        (stage, calls),
        (
            TapStage::Idle,
            vec![
                TapCall::UnpublishTap,
                TapCall::RemoveSource,
                TapCall::ReleaseSource,
                TapCall::InvalidateTap,
                TapCall::ReleaseTap
            ]
        )
    );
}

#[test]
fn the_monitor_starts_once() {
    let mut start = MonitorStart { started: false };
    assert!(start_paste_key_monitor(&mut start));
    assert!(!start_paste_key_monitor(&mut start));
}
