//! Laws of the interface sounds.

use vstd::prelude::*;

use crate::bundled_sound;
use crate::bundled_sound::{sound_kind, BundledPlay, Playback, SoundKind};
use crate::decimal::to_decimal;
use crate::macos_sound;
use crate::macos_sound::{
    afplay_path, copy_file_name, normalize_kind, play_by, play_unqueued, register,
    remove_other_copies, system_sound_name, work_for, CommandPlay, PlayBy, RegisteredSound,
    Registry, SoundDir, SoundLookup, SoundRequest, SoundTask, SoundWorker, WorkerHandle,
};
use crate::platform::Platform;
use crate::settings_store::{Stored, StoredView};
use crate::ui_sound;
use crate::ui_sound::{paste_sound_enabled, play_ui_sound, SoundSettings, UiSound};
use crate::volume::{audible_volume, volume_key, Volume};

verus! {

/// A sound is played where sounds are on and, for the paste sound, pastes have one; it
/// is then played at the volume of the settings, whatever its kind, and at full volume
/// where there is none.
pub proof fn law_sounds_follow_the_settings(
    settings: SoundSettings,
    stored: Stored,
    kind: &str,
    res: Option<u64>,
    on: bool,
)
    requires
        call_ensures(play_ui_sound, (&settings, &stored, kind), res),
        call_ensures(paste_sound_enabled, (&settings, &stored), on),
    ensures
        res is Some <==> settings.sound_enabled && (kind@ == "paste"@ ==> on),
        res is Some ==> (settings.sound_volume is Some ==> res == settings.sound_volume),
        res is Some ==> (settings.sound_volume is None ==> res == Some(0x3ff0_0000_0000_0000u64)),
{
}

/// Pastes have a sound unless it is off in memory and something other than `true` is
/// stored.
pub proof fn law_paste_sound_is_on_unless_switched_off(
    settings: SoundSettings,
    stored: Stored,
    on: bool,
)
    requires
        call_ensures(paste_sound_enabled, (&settings, &stored), on),
    ensures
        !on <==> !settings.paste_sound_enabled && stored@ is Value && stored@ != StoredView::Value(
            "true"@,
        ),
{
}

/// Two kinds that are not `paste` are played alike, whatever is stored about pastes.
pub proof fn law_other_sounds_are_alike(
    settings: SoundSettings,
    a: Stored,
    b: Stored,
    kind: &str,
    other: &str,
    first: Option<u64>,
    second: Option<u64>,
)
    requires
        kind@ != "paste"@,
        other@ != "paste"@,
        call_ensures(play_ui_sound, (&settings, &a, kind), first),
        call_ensures(play_ui_sound, (&settings, &b, other), second),
    ensures
        first == second,
{
}

/// Only the name `paste` is the paste sound; every other name is the copy sound.
pub proof fn law_names_of_sounds(
    name: &str,
    kind: SoundKind,
    normal: &'static str,
    system: &'static str,
)
    requires
        call_ensures(sound_kind, (name,), kind),
        call_ensures(normalize_kind, (name,), normal),
        call_ensures(system_sound_name, (name,), system),
    ensures
        kind is Paste <==> name@ == "paste"@,
        name@ == "paste"@ ==> normal@ == "paste"@ && system@ == "Frog"@,
        name@ != "paste"@ ==> normal@ == "copy"@ && system@ == "Tink"@,
{
}

/// A request is made exactly where the volume is audible, with the named sound at just
/// that volume; macOS and the other systems agree on it.
pub proof fn law_requests_keep_sound_and_volume(
    platform: Platform,
    name: &str,
    raw: u64,
    volume: Option<Volume>,
    server: Option<SoundRequest>,
    bundled: Option<BundledPlay>,
    res: Option<UiSound>,
    preload: Option<SoundRequest>,
    registered: Option<SoundRequest>,
)
    requires
        call_ensures(audible_volume, (raw,), volume),
        call_ensures(macos_sound::play_clipboard_sound, (name, raw), server),
        call_ensures(bundled_sound::play_clipboard_sound, (name, raw), bundled),
        call_ensures(ui_sound::play_ui_sound_at_volume, (platform, name, raw), res),
        call_ensures(ui_sound::preload_ui_sounds, (platform, raw), preload),
        call_ensures(macos_sound::preload_clipboard_sounds, (raw,), registered),
    ensures
        server is Some <==> volume is Some,
        bundled is Some <==> volume is Some,
        res is Some <==> volume is Some,
        preload is Some <==> volume is Some && platform is MacOs,
        registered is Some <==> volume is Some,
        server matches Some(request) ==> (request matches SoundRequest::Play { kind, volume: at }
            && Some(at) == volume && (kind is Paste <==> name@ == "paste"@)),
        bundled matches Some(play) ==> Some(play.volume) == volume && (play.kind is Paste <==> name@
            == "paste"@),
        res matches Some(sound) ==> (sound is Server <==> platform is MacOs),
        res matches Some(UiSound::Server(request)) ==> server == Some(request),
        res matches Some(UiSound::Bundled(play)) ==> bundled == Some(play),
        registered matches Some(request) ==> (request matches SoundRequest::Preload { volume: at }
            && Some(at) == volume),
        preload is Some ==> preload == registered,
{
}

/// The first directory that is set on macOS stays; elsewhere none is ever set.
pub proof fn law_first_sound_directory_stays<T>(
    platform: Platform,
    cell: &mut SoundDir<T>,
    dir: T,
    res: (),
)
    requires
        call_ensures(ui_sound::set_sound_dir::<T>, (platform, cell, dir), res),
    ensures
        old(cell).dir() is Some ==> final(cell).dir() == old(cell).dir(),
        platform is MacOs && old(cell).dir() is None ==> final(cell).dir() == Some(dir),
        !(platform is MacOs) ==> final(cell).dir() == old(cell).dir(),
{
}

/// Likewise on macOS itself.
pub proof fn law_first_directory_stays<T>(cell: &mut SoundDir<T>, dir: T, res: ())
    requires
        call_ensures(macos_sound::set_sound_dir::<T>, (cell, dir), res),
    ensures
        old(cell).dir() is Some ==> final(cell).dir() == old(cell).dir(),
        old(cell).dir() is None ==> final(cell).dir() == Some(dir),
{
}

/// The directory that was set is the one that is handed out.
pub proof fn law_sound_directory_is_handed_out<T>(cell: SoundDir<T>, res: Option<&T>)
    requires
        call_ensures(macos_sound::sound_dir::<T>, (&cell,), res),
    ensures
        cell.dir() is None ==> res is None,
        cell.dir() matches Some(dir) ==> (res matches Some(found) && *found == dir),
{
}

/// A registered sound is used exactly where it was registered at the same whole percent
/// and its file is there; using it changes nothing. Else it leaves the registry and is
/// handed out to be disposed of. The other sound is never touched.
pub proof fn law_registered_sounds_are_reused(
    registry: &mut Registry,
    kind: SoundKind,
    volume: Volume,
    present: bool,
    key: u32,
    res: SoundLookup,
)
    requires
        call_ensures(Registry::sound_id_for, (registry, kind, &volume, present), res),
        call_ensures(volume_key, (&volume,), key),
    ensures
        ({
            let mine = if kind is Copy {
                old(registry).copy
            } else {
                old(registry).paste
            };
            let after = if kind is Copy {
                final(registry).copy
            } else {
                final(registry).paste
            };
            &&& res is Use <==> present && (mine matches Some(sound) && sound.volume_key == key)
            &&& res matches SoundLookup::Use(id) ==> after == mine && id == mine->0.sound_id
            &&& res matches SoundLookup::Register { dispose } ==> dispose == mine && after is None
        }),
        kind is Copy ==> final(registry).paste == old(registry).paste,
        kind is Paste ==> final(registry).copy == old(registry).copy,
{
}

/// What is kept for a sound is what was registered, with its ID; the other sound stays.
pub proof fn law_kept_sounds_are_found(
    registry: &mut Registry,
    kind: SoundKind,
    sound: Option<RegisteredSound>,
    res: Option<u32>,
)
    requires
        call_ensures(Registry::keep, (registry, kind, sound), res),
    ensures
        kind is Copy ==> final(registry).copy == sound && final(registry).paste
            == old(registry).paste,
        kind is Paste ==> final(registry).paste == sound && final(registry).copy
            == old(registry).copy,
        res is Some <==> sound is Some,
        res matches Some(id) ==> id == sound->0.sound_id,
{
}

/// The file that is looked for is the one of the registered sound.
pub proof fn law_registered_file_is_known(
    registry: Registry,
    kind: SoundKind,
    res: Option<&String>,
)
    requires
        call_ensures(Registry::path_of, (&registry, kind), res),
    ensures
        kind is Copy ==> (res is Some <==> registry.copy is Some),
        kind is Paste ==> (res is Some <==> registry.paste is Some),
        res matches Some(path) ==> (kind is Copy ==> *path == registry.copy->0.path) && (
        kind is Paste ==> *path == registry.paste->0.path),
{
}

/// A sound that the server accepts is kept under its ID, its file and the whole percent
/// of its volume; one that it refuses is not.
pub proof fn law_registration_records_the_volume(
    volume: Volume,
    path: String,
    created: Option<u32>,
    key: u32,
    res: Option<RegisteredSound>,
)
    requires
        call_ensures(register, (&volume, path, created), res),
        call_ensures(volume_key, (&volume,), key),
    ensures
        res is Some <==> created is Some,
        res matches Some(sound) ==> Some(sound.sound_id) == created && sound.volume_key == key
            && sound.path == path,
{
}

/// A sound goes to the server exactly where it has an ID there, else to the command line
/// player, never to both.
pub proof fn law_sounds_have_one_player(
    kind: SoundKind,
    sound_id: Option<u32>,
    res: PlayBy,
    request: SoundRequest,
    queued: bool,
    command: Option<CommandPlay>,
)
    requires
        call_ensures(play_by, (kind, sound_id), res),
        call_ensures(play_unqueued, (request, queued), command),
    ensures
        sound_id matches Some(id) ==> res == PlayBy::Server(id),
        sound_id is None ==> res == PlayBy::Command(kind),
        command is Some <==> request is Play && !queued,
        command matches Some(play) ==> (request matches SoundRequest::Play { kind, volume }
            && play.volume == volume && (kind is Paste ==> play.path@
            == "/System/Library/Sounds/"@ + "Frog"@ + ".aiff"@) && (kind is Copy ==> play.path@
            == "/System/Library/Sounds/"@ + "Tink"@ + ".aiff"@)),
{
}

/// The command line player plays the system sound with the same content.
pub proof fn law_command_plays_the_system_sound(kind: SoundKind, res: String)
    requires
        call_ensures(afplay_path, (kind,), res),
    ensures
        kind is Paste ==> res@ == "/System/Library/Sounds/"@ + "Frog"@ + ".aiff"@,
        kind is Copy ==> res@ == "/System/Library/Sounds/"@ + "Tink"@ + ".aiff"@,
{
}

/// A play is done once and as asked for, unless it waited for more than a second and a
/// half: then nothing is done. Preloading registers both sounds and plays none.
pub proof fn law_requests_lead_to_tasks(
    request: SoundRequest,
    waited_nanos: u128,
    task: SoundTask,
    res: Vec<SoundTask>,
)
    requires
        call_ensures(work_for, (request, waited_nanos), res),
    ensures
        request matches SoundRequest::Play { kind, volume } ==> (res@.contains(task)
            <==> waited_nanos <= 1_500_000_000 && task == (SoundTask::Play { kind, volume }))
            && res@.len() <= 1,
        request matches SoundRequest::Preload { volume } ==> (res@.contains(task) <==> (task
            matches SoundTask::Register { volume: at, .. } && at == volume)) && res@.len() == 2
            && res@[0] == (SoundTask::Register { kind: SoundKind::Copy, volume }),
{
    if res@.len() > 0 {
        assert(res@.contains(res@[0]));
    }
    if res@.len() > 1 {
        assert(res@.contains(res@[1]));
    }
}

/// The thread does for a request what the request leads to, after all that it did before,
/// and keeps the sounds that it has registered.
pub proof fn law_requests_are_taken_up_in_order(
    worker: &mut SoundWorker,
    request: SoundRequest,
    waited_nanos: u128,
    res: Vec<SoundTask>,
    work: Vec<SoundTask>,
)
    requires
        call_ensures(SoundWorker::take_up, (worker, request, waited_nanos), res),
        call_ensures(work_for, (request, waited_nanos), work),
    ensures
        res@ == work@,
        final(worker).done@ == old(worker).done@ + work@,
        final(worker).taken@ == old(worker).taken@.push((request, waited_nanos)),
        final(worker).registry == old(worker).registry,
{
}

/// A thread is to be started until an attempt was made; what that attempt gave is handed
/// out from then on.
pub proof fn law_worker_is_started_once<T>(
    fresh: WorkerHandle<T>,
    cell: &mut WorkerHandle<T>,
    handle: Option<T>,
    res: (),
    first: bool,
    again: bool,
    found: Option<&T>,
)
    requires
        call_ensures(WorkerHandle::<T>::new, (), fresh),
        call_ensures(WorkerHandle::<T>::is_fresh, (&fresh,), first),
        call_ensures(WorkerHandle::<T>::keep, (cell, handle), res),
        *cell == fresh,
        call_ensures(WorkerHandle::<T>::is_fresh, (final(cell),), again),
        call_ensures(WorkerHandle::<T>::worker, (final(cell),), found),
    ensures
        first,
        !again,
        found is Some <==> handle is Some,
        found matches Some(it) ==> handle == Some(*it),
{
}

/// Nothing needs scaling exactly from the single nearest to `0.999` up to one.
pub proof fn law_nearly_full_volumes(volume: Volume, res: bool)
    requires
        call_ensures(Volume::nearly_full, (&volume,), res),
    ensures
        res <==> 0x3f7f_be77 <= volume.bits <= 0x3f80_0000,
{
}

/// Two sounds lie in one file only where they are the same sound at the same whole
/// percent; the file is named after the sound and is WAV data.
pub proof fn law_sound_files_are_told_apart(
    kind: SoundKind,
    other: SoundKind,
    a: Volume,
    b: Volume,
    first_key: u32,
    second_key: u32,
    first: String,
    second: String,
    number: String,
)
    requires
        call_ensures(copy_file_name, (kind, &a), first),
        call_ensures(to_decimal, (first_key,), number),
        call_ensures(copy_file_name, (other, &b), second),
        call_ensures(volume_key, (&a,), first_key),
        call_ensures(volume_key, (&b,), second_key),
    ensures
        first@ == second@ <==> kind == other && first_key == second_key,
        kind is Copy ==> crate::text::has_prefix(first@, "copy-"@),
        kind is Paste ==> crate::text::has_prefix(first@, "paste-"@),
        crate::text::has_suffix(first@, ".wav"@),
        kind is Copy ==> first@ == "copy-"@ + number@ + ".wav"@,
        kind is Paste ==> first@ == "paste-"@ + number@ + ".wav"@,
{
    reveal_strlit("copy");
    reveal_strlit("paste");
    reveal_strlit("-");
    reveal_strlit("copy-");
    reveal_strlit("paste-");
    assert("copy"@ + "-"@ =~= "copy-"@);
    assert("paste"@ + "-"@ =~= "paste-"@);
    let prefix = crate::bundled_sound::kind_name(kind) + "-"@;
    assert(first@.take(prefix.len() as int) =~= prefix);
    assert(first@.skip(first@.len() - ".wav"@.len()) =~= ".wav"@);
    assert(first@[0] == crate::bundled_sound::kind_name(kind)[0]);
    assert(second@[0] == crate::bundled_sound::kind_name(other)[0]);
    if kind == other {
        macos_sound::lemma_cleanup_finds_other_volumes(kind, first_key as nat, second_key as nat);
        let keep = macos_sound::copy_name(crate::bundled_sound::kind_name(kind), first_key as nat);
        assert(second@.take(prefix.len() as int) =~= prefix);
        assert(second@.skip(second@.len() - ".wav"@.len()) =~= ".wav"@);
        assert(first@ == keep);
    }
}

/// The files that go are those of the same sound, but for the one to keep: named after
/// the sound, and WAV data.
pub proof fn law_only_other_copies_go(
    names: Vec<String>,
    kind: SoundKind,
    keep: &str,
    n: usize,
    res: Vec<usize>,
)
    requires
        call_ensures(remove_other_copies, (&names, kind, keep), res),
        n < names@.len(),
    ensures
        res@.contains(n) <==> names@[n as int]@ != keep@ && crate::text::has_suffix(
            names@[n as int]@,
            ".wav"@,
        ) && (if kind is Copy {
            crate::text::has_prefix(names@[n as int]@, "copy-"@)
        } else {
            crate::text::has_prefix(names@[n as int]@, "paste-"@)
        }),
{
    reveal_strlit("copy");
    reveal_strlit("paste");
    reveal_strlit("-");
    reveal_strlit("copy-");
    reveal_strlit("paste-");
    assert("copy"@ + "-"@ =~= "copy-"@);
    assert("paste"@ + "-"@ =~= "paste-"@);
}

/// The embedded data itself is played exactly from the single nearest to `0.999` up to
/// full volume.
pub proof fn law_nearly_full_volume_needs_no_copy(wav: &[u8], volume: Volume, res: Playback)
    requires
        call_ensures(bundled_sound::play_wav_on_windows, (wav, &volume), res),
    ensures
        res is FromSource <==> 0x3f7f_be77 <= volume.bits <= 0x3f80_0000,
{
}

/// The first attempt to start the thread counts, whether it gave a handle or none.
pub proof fn law_first_worker_stays<T>(cell: &mut WorkerHandle<T>, handle: Option<T>, res: ())
    requires
        call_ensures(WorkerHandle::<T>::keep, (cell, handle), res),
    ensures
        old(cell).outcome() is Some ==> final(cell).outcome() == old(cell).outcome(),
        old(cell).outcome() is None ==> final(cell).outcome() == Some(handle),
{
}

} // verus!
