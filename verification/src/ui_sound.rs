//! Interface sounds: whether one is played, how loud, and by which means.

use vstd::prelude::*;

use crate::bundled_sound;
use crate::bundled_sound::{kind_named, BundledPlay};
use crate::macos_sound;
use crate::macos_sound::{SoundDir, SoundRequest};
use crate::platform::Platform;
use crate::settings_store::{Stored, StoredView};
use crate::text::same_text;
use crate::volume::{audible, DOUBLE_ONE};

verus! {

/// How long after a paste its sound is played, in milliseconds.
pub const PASTE_SOUND_DELAY_MS: u64 = 60;

/// The settings of interface sounds, as the running program has them.
#[derive(Clone, Copy, Debug, PartialEq, Eq, Structural)]
pub struct SoundSettings {
    pub sound_enabled: bool,
    pub paste_sound_enabled: bool,
    /// The volume as a double, where it could be read.
    pub sound_volume: Option<u64>,
}

/// Whether a paste has a sound: where the running program does not have it so, the
/// stored setting decides, and without one it has.
pub open spec fn paste_sound_on(in_memory: bool, stored: StoredView) -> bool {
    in_memory || stored.flag_or(true)
}

/// Whether a paste has a sound. The value in memory can be stale where it is off, so
/// what is stored under `app.sound_paste_enabled` is trusted then.
pub fn paste_sound_enabled(settings: &SoundSettings, stored: &Stored) -> (res: bool)
    ensures
        res == paste_sound_on(settings.paste_sound_enabled, stored@),
{
    if settings.paste_sound_enabled {
        return true;
    }
    stored.flag_or(true)
}

/// The volume that a sound is played at, if it is played.
pub open spec fn ui_sound_volume(
    settings: SoundSettings,
    stored: StoredView,
    kind: Seq<char>,
) -> Option<u64> {
    if !settings.sound_enabled || (kind == "paste"@ && !paste_sound_on(
        settings.paste_sound_enabled,
        stored,
    )) {
        None
    } else {
        Some(
            match settings.sound_volume {
                Some(volume) => volume,
                None => DOUBLE_ONE,
            },
        )
    }
}

/// Decides whether a sound is played, and at which volume.
pub fn play_ui_sound(settings: &SoundSettings, stored: &Stored, kind: &str) -> (res: Option<u64>)
    ensures
        res == ui_sound_volume(*settings, stored@, kind@),
{
    if !settings.sound_enabled {
        return None;
    }
    if same_text(kind, "paste") && !paste_sound_enabled(settings, stored) {
        return None;
    }
    match settings.sound_volume {
        Some(volume) => Some(volume),
        None => Some(DOUBLE_ONE),
    }
}

/// Only the paste sound depends on the setting for pastes, and with sounds off none
/// is played.
pub proof fn lemma_paste_setting_is_for_pastes(
    settings: SoundSettings,
    flag: bool,
    stored: StoredView,
    other: StoredView,
    kind: Seq<char>,
)
    ensures
        !settings.sound_enabled ==> ui_sound_volume(settings, stored, kind) is None,
        kind != "paste"@ ==> ui_sound_volume(settings, stored, kind) == ui_sound_volume(
            SoundSettings { paste_sound_enabled: flag, ..settings },
            other,
            kind,
        ),
{
}

/// A sound to be played by the means of the system.
#[derive(Clone, Copy, Debug, PartialEq, Eq, Structural)]
pub enum UiSound {
    /// By a request to the sound server.
    Server(SoundRequest),
    /// From the embedded data.
    Bundled(BundledPlay),
}

/// The sound to play at a volume given as a double; none where that is not audible.
pub fn play_ui_sound_at_volume(platform: Platform, kind: &str, volume: u64) -> (res: Option<
    UiSound,
>)
    ensures
        res == match audible(volume) {
            Some(volume) => Some(
                if platform == Platform::MacOs {
                    UiSound::Server(SoundRequest::Play { kind: kind_named(kind@), volume })
                } else {
                    UiSound::Bundled(BundledPlay { kind: kind_named(kind@), volume })
                },
            ),
            None => None,
        },
{
    match platform {
        Platform::MacOs => match macos_sound::play_clipboard_sound(kind, volume) {
            Some(request) => Some(UiSound::Server(request)),
            None => None,
        },
        _ => match bundled_sound::play_clipboard_sound(kind, volume) {
            Some(play) => Some(UiSound::Bundled(play)),
            None => None,
        },
    }
}

/// Sets the directory for sound files, where the system needs one.
pub fn set_sound_dir<T>(platform: Platform, cell: &mut SoundDir<T>, dir: T)
    ensures
        final(cell).dir() == if platform == Platform::MacOs && old(cell).dir() is None {
            Some(dir)
        } else {
            old(cell).dir()
        },
{
    match platform {
        Platform::MacOs => macos_sound::set_sound_dir(cell, dir),
        _ => {},
    }
}

/// The request for registering the sounds ahead of the first play, where the system
/// registers sounds.
pub fn preload_ui_sounds(platform: Platform, volume: u64) -> (res: Option<SoundRequest>)
    ensures
        res == match audible(volume) {
            Some(volume) if platform == Platform::MacOs => Some(SoundRequest::Preload { volume }),
            _ => None,
        },
{
    match platform {
        Platform::MacOs => macos_sound::preload_clipboard_sounds(volume),
        _ => None,
    }
}

} // verus!
