//! Clipboard sounds from embedded WAV data, as Windows plays them.

use vstd::prelude::*;

use crate::text::same_text;
use crate::volume::{audible, audible_volume, Volume};
use crate::wav::{scaled_or_same, scaled_or_source};

verus! {

/// The two clipboard sounds.
#[derive(Clone, Copy, Debug, PartialEq, Eq, Structural)]
pub enum SoundKind {
    Copy,
    Paste,
}

/// The sound that a name stands for: any name but `paste` is the copy sound.
pub open spec fn kind_named(name: Seq<char>) -> SoundKind {
    if name == "paste"@ {
        SoundKind::Paste
    } else {
        SoundKind::Copy
    }
}

/// The name of a sound.
pub open spec fn kind_name(kind: SoundKind) -> Seq<char> {
    match kind {
        SoundKind::Copy => "copy"@,
        SoundKind::Paste => "paste"@,
    }
}

/// The sound that a name stands for.
pub fn sound_kind(name: &str) -> (res: SoundKind)
    ensures
        res == kind_named(name@),
{
    if same_text(name, "paste") {
        SoundKind::Paste
    } else {
        SoundKind::Copy
    }
}

/// A sound to play at a volume.
#[derive(Clone, Copy, Debug, PartialEq, Eq, Structural)]
pub struct BundledPlay {
    pub kind: SoundKind,
    pub volume: Volume,
}

/// The sound to play for a request at a volume given as a double; none where that
/// is not audible.
pub fn play_clipboard_sound(kind: &str, volume: u64) -> (res: Option<BundledPlay>)
    ensures
        res is Some == audible(volume) is Some,
        res matches Some(play) ==> play.kind == kind_named(kind@) && Some(play.volume) == audible(
            volume,
        ) && play.volume.valid(),
{
    match audible_volume(volume) {
        None => None,
        Some(volume) => Some(BundledPlay { kind: sound_kind(kind), volume }),
    }
}

/// How a sound is handed to the system.
#[derive(Debug)]
pub enum Playback {
    /// The embedded data itself, which outlives the call, without waiting.
    FromSource,
    /// A scaled copy, kept until the sound has ended.
    FromBuffer(Vec<u8>),
}

/// Decides how `wav` is played at `volume`.
pub fn play_wav_on_windows(wav: &[u8], volume: &Volume) -> (res: Playback)
    requires
        volume.valid(),
    ensures
        res is FromSource <==> volume.is_nearly_full(),
        res matches Playback::FromBuffer(buffer) ==> buffer@ == scaled_or_same(wav@, *volume),
{
    if volume.nearly_full() {
        return Playback::FromSource;
    }
    Playback::FromBuffer(scaled_or_source(wav, volume))
}

} // verus!
