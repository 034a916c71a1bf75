use std::io::Cursor;

use tiez_shell::bundled_sound::{play_clipboard_sound, play_wav_on_windows, Playback, SoundKind};
use tiez_shell::volume::Volume;
use tiez_shell::wav::{scale_wav_volume, scaled_or_source, scaled_wav};

fn volume(fraction: f32) -> Volume {
    Volume { bits: fraction.to_bits() }
}

fn wav_of(bits: u16, channels: u16, samples: &[i32]) -> Vec<u8> {
    let spec = hound::WavSpec {
        channels,
        sample_rate: 44100,
        bits_per_sample: bits,
        sample_format: hound::SampleFormat::Int,
    };
    let mut out = Vec::new();
    let mut writer = hound::WavWriter::new(Cursor::new(&mut out), spec).unwrap();
    for sample in samples {
        writer.write_sample(*sample).unwrap();
    }
    writer.finalize().unwrap();
    out
}

fn samples_of(wav: &[u8]) -> Vec<i32> {
    let reader = hound::WavReader::new(Cursor::new(wav)).unwrap();
    reader.into_samples::<i32>().map(|s| s.unwrap()).collect()
}

#[test]
fn scaled_data_keeps_the_format_and_scales_each_sample() {
    let source = wav_of(16, 2, &[0, 1000, -1000, 32767, -32768, 3]);
    let scaled = scale_wav_volume(&source, &volume(0.5)).unwrap();
    assert_eq!(samples_of(&scaled), vec![0, 500, -500, 16383, -16384, 1]);
    let reader = hound::WavReader::new(Cursor::new(&scaled)).unwrap();
    let spec = reader.spec();
    assert_eq!(spec.channels, 2);
    assert_eq!(spec.sample_rate, 44100);
    assert_eq!(spec.bits_per_sample, 16);
    assert_ne!(scaled, source);
}

#[test]
fn eight_bit_data_can_be_scaled() {
    let source = wav_of(8, 1, &[0, 100, -100, 127, -128]);
    let scaled = scale_wav_volume(&source, &volume(0.25)).unwrap();
    assert_eq!(samples_of(&scaled), vec![0, 25, -25, 31, -32]);
}

#[test]
fn scaling_matches_single_precision() {
    let values: Vec<i32> = (-320..320).map(|i| i * 102).collect();
    let source = wav_of(16, 1, &values);
    for fraction in [0.1f32, 0.3, 0.7, 0.999, 0.001] {
        let scaled = scale_wav_volume(&source, &volume(fraction)).unwrap();
        let expected: Vec<i32> = values
            .iter()
            .map(|s| ((*s as f32) * fraction).clamp(-32768.0, 32767.0) as i16 as i32)
            .collect();
        assert_eq!(samples_of(&scaled), expected);
    }
}

#[test]
fn data_that_is_no_wav_is_refused_and_played_as_it_is() {
    let junk = vec![1u8, 2, 3, 4];
    assert!(scale_wav_volume(&junk, &volume(0.5)).is_err());
    assert_eq!(scaled_or_source(&junk, &volume(0.5)), junk);
    assert_eq!(scaled_wav(&junk, &volume(0.5)), junk);
}

#[test]
fn deep_samples_cannot_be_read_as_sixteen_bits() {
    let source = wav_of(24, 1, &[1_000_000, -1_000_000]);
    let refused = scale_wav_volume(&source, &volume(0.5));
    assert_eq!(
        refused,
        Err("The sample has more bits than the destination type.".to_string())
    );
    assert_eq!(scaled_or_source(&source, &volume(0.5)), source);
}

#[test]
fn unusual_bit_depths_cannot_be_written() {
    let mut odd = wav_of(16, 1, &[5, 6, 7, 8, 9]);
    // 44100 frames a second of one sample with 40 bits each.
    odd[28..32].copy_from_slice(&220500u32.to_le_bytes());
    odd[32] = 5;
    odd[34] = 40;
    assert_eq!(
        scale_wav_volume(&odd, &volume(0.5)),
        Err("The wave format of the file is not supported.".to_string())
    );
    assert_eq!(scaled_or_source(&odd, &volume(0.5)), odd);
}

#[test]
fn full_volume_uses_the_embedded_data() {
    let source = wav_of(16, 1, &[1000, -1000]);
    assert_eq!(scaled_wav(&source, &volume(1.0)), source);
    assert_eq!(scaled_wav(&source, &volume(0.995)), source);
    assert_eq!(samples_of(&scaled_wav(&source, &volume(0.5))), vec![500, -500]);
}

#[test]
fn windows_plays_nearly_full_volume_from_the_embedded_data() {
    let source = wav_of(16, 1, &[1000, -1000]);
    assert!(matches!(play_wav_on_windows(&source, &volume(1.0)), Playback::FromSource));
    assert!(matches!(play_wav_on_windows(&source, &volume(0.999)), Playback::FromSource));
    match play_wav_on_windows(&source, &volume(0.99)) {
        Playback::FromBuffer(buffer) => assert_eq!(samples_of(&buffer), vec![990, -990]),
        Playback::FromSource => panic!("a scaled copy was expected"),
    }
}

#[test]
fn a_silent_request_plays_nothing() {
    assert!(play_clipboard_sound("copy", 0.0f64.to_bits()).is_none());
    assert!(play_clipboard_sound("copy", (-1.0f64).to_bits()).is_none());
    let play = play_clipboard_sound("paste", 0.5f64.to_bits()).unwrap();
    assert_eq!(play.kind, SoundKind::Paste);
    assert_eq!(play.volume, volume(0.5));
    let play = play_clipboard_sound("anything", 7.0f64.to_bits()).unwrap();
    assert_eq!(play.kind, SoundKind::Copy);
    assert_eq!(play.volume, volume(1.0));
}

#[test]
fn volume_zero_gives_silence() {
    let source = wav_of(16, 2, &[1000, -1000, 32767, -32768]);
    for zero in [0.0f32, -0.0] {
        let silent = scale_wav_volume(&source, &volume(zero)).unwrap();
        assert_eq!(samples_of(&silent), vec![0, 0, 0, 0]);
    }
    let halves = wav_of(16, 1, &[3, -3]);
    assert_eq!(samples_of(&scale_wav_volume(&halves, &volume(0.5)).unwrap()), vec![1, -1]);
    assert_eq!(samples_of(&scaled_wav(&source, &volume(0.0))), vec![0, 0, 0, 0]);
}

#[test]
fn many_channels_take_the_longer_header() {
    let source = wav_of(16, 3, &[100, -200, 300]);
    assert_eq!(source.len(), 68 + 6);
    let scaled = scale_wav_volume(&source, &volume(0.5)).unwrap();
    assert_eq!(samples_of(&scaled), vec![50, -100, 150]);
    assert_eq!(wav_of(16, 2, &[1, 2]).len(), 44 + 4);
}
