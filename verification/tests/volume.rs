use tiez_shell::geometry::{is_barely_visible, is_clearly_visible, visibility_ratio_on_monitor, Rect};
use tiez_shell::volume::{
    audible_volume, normalize_sound_volume, scale_sample, volume_key, Volume, SINGLE_ONE,
};

fn normalized(raw: f64) -> f64 {
    f64::from_bits(normalize_sound_volume(raw.to_bits()))
}

fn expected(raw: f64) -> f64 {
    if !raw.is_finite() {
        return 1.0;
    }
    let fraction = if raw > 1.0 { raw / 100.0 } else { raw };
    fraction.clamp(0.0, 1.0)
}

#[test]
fn stored_volumes_become_fractions() {
    assert_eq!(normalized(0.4), 0.4);
    assert_eq!(normalized(40.0), 0.4);
    assert_eq!(normalized(100.0), 1.0);
    assert_eq!(normalized(250.0), 1.0);
    assert_eq!(normalized(-3.0), 0.0);
    assert_eq!(normalized(f64::NAN), 1.0);
    assert_eq!(normalized(f64::INFINITY), 1.0);
    assert_eq!(normalized(f64::NEG_INFINITY), 1.0);
    assert_eq!(normalized(-0.0).to_bits(), (-0.0f64).to_bits());
}

#[test]
fn percentages_divide_like_doubles() {
    let mut raw = 1.0f64;
    let mut i = 0;
    while i < 20000 {
        raw += 0.0051234567;
        assert_eq!(normalized(raw).to_bits(), expected(raw).to_bits());
        assert_eq!(normalized(normalized(raw)), normalized(raw));
        i += 1;
    }
    for raw in [1.0000000000000002, 1.5625, 1.5624999999999998, 99.99999999999999, 64.0, 63.99999999999999] {
        assert_eq!(normalized(raw).to_bits(), expected(raw).to_bits());
    }
}

#[test]
fn audible_volumes_round_like_singles() {
    let mut raws = vec![
        0.0, -0.0, 1.0, 2.0, -1.0, 0.5, 0.1, 0.7, 0.3, 0.999, 1e-3, 1e-30, 1e-38, 1.2e-38, 1e-40,
        1e-44, 7e-46, 7.1e-46, 1e-50, 1e-300, 5e-324, 0.9999999999, 0.99999997, 0.99999998,
        f64::INFINITY, f64::NEG_INFINITY,
    ];
    let mut i = 1;
    while i < 3000 {
        raws.push(i as f64 / 3001.0);
        raws.push(1.0 / (i as f64 * 1e36));
        i += 1;
    }
    for raw in raws {
        let vol = raw.clamp(0.0, 1.0) as f32;
        let got = audible_volume(raw.to_bits());
        if vol <= 0.0 {
            assert_eq!(got, None);
        } else {
            assert_eq!(got, Some(Volume { bits: vol.to_bits() }));
        }
    }
    let nan = audible_volume(f64::NAN.to_bits()).unwrap();
    assert!(f32::from_bits(nan.bits).is_nan());
    assert_eq!(volume_key(&nan), 0);
    assert_eq!(scale_sample(&nan, 1234), 0);
}

#[test]
fn keys_and_samples_agree_with_single_arithmetic() {
    let mut i = 1;
    while i <= 4000 {
        let vol = (i as f64 / 4000.0) as f32;
        let volume = Volume { bits: vol.to_bits() };
        assert_eq!(volume_key(&volume), (vol * 100.0).round() as u32);
        for s in [i16::MIN, -12345, -1, 0, 1, 7, 999, 32766, i16::MAX] {
            let want = (f32::from(s) * vol).clamp(i16::MIN as f32, i16::MAX as f32) as i16;
            assert_eq!(scale_sample(&volume, s), want);
        }
        i += 1;
    }
    for vol in [0.005f32, 0.015, 0.025, 0.995, 1e-30, 1e-42, f32::MIN_POSITIVE] {
        let volume = Volume { bits: vol.to_bits() };
        assert_eq!(volume_key(&volume), (vol * 100.0).round() as u32);
        assert_eq!(scale_sample(&volume, 30000), (30000.0 * vol) as i16);
    }
    assert_eq!(volume_key(&Volume { bits: SINGLE_ONE }), 100);
    assert_eq!(scale_sample(&Volume { bits: SINGLE_ONE }, i16::MIN), i16::MIN);
    assert_eq!(volume_key(&Volume { bits: 0.4f32.to_bits() }), 40);
    assert_eq!(scale_sample(&Volume { bits: 0.5f32.to_bits() }, -7), -3);
}

#[test]
fn visibility_agrees_with_the_double_quotient() {
    let screens = [
        Rect { left: 0, top: 0, right: 1000, bottom: 500 },
        Rect { left: i32::MIN, top: i32::MIN, right: i32::MAX, bottom: i32::MAX },
        Rect { left: -100, top: -50, right: 1_900_000_000, bottom: 1_234_567_890 },
    ];
    let windows = [
        Rect { left: 0, top: 0, right: 50, bottom: 50 },
        Rect { left: -41, top: 0, right: 9, bottom: 50 },
        Rect { left: -32, top: 0, right: 18, bottom: 100 },
        Rect { left: 5, top: 5, right: 5, bottom: 1 },
        Rect { left: 900, top: 400, right: 2_000_000_000, bottom: 2_000_000_000 },
        Rect { left: i32::MIN, top: -7, right: i32::MAX, bottom: i32::MAX },
    ];
    for screen in &screens {
        for window in &windows {
            let (visible, total) = visibility_ratio_on_monitor(window, screen);
            let ratio = visible as f64 / total as f64;
            assert_eq!(is_barely_visible(window, screen), ratio < 0.18);
            assert_eq!(is_clearly_visible(window, screen), ratio > 0.18);
        }
    }
    let exact = Rect { left: -41, top: 0, right: 9, bottom: 50 };
    assert_eq!(visibility_ratio_on_monitor(&exact, &screens[0]), (450, 2500));
    assert!(!is_barely_visible(&exact, &screens[0]) && !is_clearly_visible(&exact, &screens[0]));
}
