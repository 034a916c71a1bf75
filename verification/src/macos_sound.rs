//! Interface sounds through the macOS sound server.
//!
//! The server has no volume per sound, so each sound is registered as a scaled copy
//! in a file of its own. The server goes back to that file on later plays: a
//! registered sound is used again only while its volume is the wanted one and its
//! file is still there.

use vstd::prelude::*;

use crate::bundled_sound::{kind_name, kind_named, sound_kind, SoundKind};
use crate::decimal::{decimal, lemma_decimal_reads_back, to_decimal};
use crate::text::{ends_with, has_prefix, has_suffix, same_text, starts_with};
use crate::volume::{audible, audible_volume, volume_key, Volume};

verus! {

/// A play request that waited longer than this is dropped, in nanoseconds.
pub const STALE_AFTER_NANOS: u128 = 1_500_000_000;

/// The canonical name of a sound.
pub fn normalize_kind(kind: &str) -> (res: &'static str)
    ensures
        res@ == kind_name(kind_named(kind@)),
{
    match sound_kind(kind) {
        SoundKind::Paste => "paste",
        SoundKind::Copy => "copy",
    }
}

/// Normalizing a name twice is the same as once.
pub proof fn lemma_normalized_kind_is_stable(kind: Seq<char>)
    ensures
        kind_named(kind_name(kind_named(kind))) == kind_named(kind),
{
    reveal_strlit("paste");
    reveal_strlit("copy");
    assert("paste"@.len() == 5 && "copy"@.len() == 4);
}

/// The system sound with the same content.
pub open spec fn system_sound(kind: SoundKind) -> Seq<char> {
    match kind {
        SoundKind::Paste => "Frog"@,
        SoundKind::Copy => "Tink"@,
    }
}

/// The system sound with the same content.
pub fn system_sound_name(kind: &str) -> (res: &'static str)
    ensures
        res@ == system_sound(kind_named(kind@)),
{
    match sound_kind(kind) {
        SoundKind::Paste => "Frog",
        SoundKind::Copy => "Tink",
    }
}

/// The directory for the registered copies: the first one that is set counts.
pub struct SoundDir<T> {
    chosen: Option<T>,
}

impl<T> SoundDir<T> {
    /// The directory that was set, if any.
    pub closed spec fn dir(self) -> Option<T> {
        self.chosen
    }

    /// No directory is set.
    pub fn new() -> (res: SoundDir<T>)
        ensures
            res.dir() is None,
    {
        SoundDir { chosen: None }
    }
}

/// Sets the directory, unless one is set already.
pub fn set_sound_dir<T>(cell: &mut SoundDir<T>, dir: T)
    ensures
        final(cell).dir() == match old(cell).dir() {
            Some(first) => Some(first),
            None => Some(dir),
        },
{
    if cell.chosen.is_none() {
        cell.chosen = Some(dir);
    }
}

/// The directory that was set. Until then the copies go to a folder
/// `tiez-sounds` among the temporary files.
pub fn sound_dir<T>(cell: &SoundDir<T>) -> (res: Option<&T>)
    ensures
        res is Some == cell.dir() is Some,
        res matches Some(dir) ==> cell.dir() == Some(*dir),
{
    cell.chosen.as_ref()
}

/// A sound registered with the server at one volume, and the file that the server
/// reads it from.
#[derive(Debug)]
pub struct RegisteredSound {
    pub volume_key: u32,
    pub sound_id: u32,
    pub path: String,
}

/// The two registered sounds.
#[derive(Debug)]
pub struct Registry {
    pub copy: Option<RegisteredSound>,
    pub paste: Option<RegisteredSound>,
}

/// What a request for a sound leads to.
#[derive(Debug)]
pub enum SoundLookup {
    /// The sound is registered as wanted.
    Use(u32),
    /// The sound is to be registered, after the present one is disposed of.
    Register { dispose: Option<RegisteredSound> },
}

impl Registry {
    /// What is registered for a sound.
    pub open spec fn slot(self, kind: SoundKind) -> Option<RegisteredSound> {
        match kind {
            SoundKind::Copy => self.copy,
            SoundKind::Paste => self.paste,
        }
    }

    /// The registry with another registration for a sound.
    pub open spec fn with_slot(self, kind: SoundKind, sound: Option<RegisteredSound>) -> Registry {
        match kind {
            SoundKind::Copy => Registry { copy: sound, ..self },
            SoundKind::Paste => Registry { paste: sound, ..self },
        }
    }

    /// Whether the registered sound can be used at a volume key.
    pub open spec fn usable(self, kind: SoundKind, key: nat, file_present: bool) -> bool {
        self.slot(kind) matches Some(sound) && sound.volume_key == key && file_present
    }

    /// The registry after a lookup, and its outcome.
    pub open spec fn looked_up(self, kind: SoundKind, key: nat, file_present: bool) -> (
        Registry,
        SoundLookup,
    ) {
        if self.usable(kind, key, file_present) {
            (self, SoundLookup::Use(self.slot(kind)->0.sound_id))
        } else {
            (
                self.with_slot(kind, None),
                SoundLookup::Register { dispose: self.slot(kind) },
            )
        }
    }

    /// No sound is registered.
    pub fn new() -> (res: Registry)
        ensures
            res.copy is None,
            res.paste is None,
    {
        Registry { copy: None, paste: None }
    }

    /// The file that the registered sound is read from.
    pub fn path_of(&self, kind: SoundKind) -> (res: Option<&String>)
        ensures
            match (self.slot(kind), res) {
                (Some(sound), Some(path)) => sound.path == *path,
                (None, None) => true,
                _ => false,
            },
    {
        match kind {
            SoundKind::Copy => match &self.copy {
                Some(sound) => Some(&sound.path),
                None => None,
            },
            SoundKind::Paste => match &self.paste {
                Some(sound) => Some(&sound.path),
                None => None,
            },
        }
    }

    /// Looks for a sound at a volume; `file_present` is whether the file of the
    /// registered one is there. A sound that cannot be used leaves the registry, so
    /// that its ID is disposed of before the next one is made.
    pub fn sound_id_for(&mut self, kind: SoundKind, volume: &Volume, file_present: bool) -> (res:
        SoundLookup)
        requires
            volume.valid(),
        ensures
            (*final(self), res) == old(self).looked_up(kind, volume.percent(), file_present),
    {
        let key: u32 = volume_key(volume);
        let usable = match kind {
            SoundKind::Copy => match &self.copy {
                Some(sound) => sound.volume_key == key && file_present,
                None => false,
            },
            SoundKind::Paste => match &self.paste {
                Some(sound) => sound.volume_key == key && file_present,
                None => false,
            },
        };
        match kind {
            SoundKind::Copy => {
                if usable {
                    if let Some(sound) = &self.copy {
                        return SoundLookup::Use(sound.sound_id);
                    }
                }
                SoundLookup::Register { dispose: self.copy.take() }
            },
            SoundKind::Paste => {
                if usable {
                    if let Some(sound) = &self.paste {
                        return SoundLookup::Use(sound.sound_id);
                    }
                }
                SoundLookup::Register { dispose: self.paste.take() }
            },
        }
    }

    /// Keeps what registering a sound gave, and hands out its ID.
    pub fn keep(&mut self, kind: SoundKind, sound: Option<RegisteredSound>) -> (res: Option<u32>)
        ensures
            *final(self) == old(self).with_slot(kind, sound),
            res == match sound {
                Some(sound) => Some(sound.sound_id),
                None => None,
            },
    {
        let id: Option<u32> = match &sound {
            Some(sound) => Some(sound.sound_id),
            None => None,
        };
        match kind {
            SoundKind::Copy => {
                self.copy = sound;
            },
            SoundKind::Paste => {
                self.paste = sound;
            },
        }
        id
    }
}

/// A sound that was registered is used again at the same volume while its file is
/// there; a change of volume or a missing file registers it anew, disposing of it
/// first; and the other sound is left alone throughout.
pub proof fn lemma_registration_is_reused(
    registry: Registry,
    kind: SoundKind,
    other: SoundKind,
    sound: RegisteredSound,
    key: nat,
)
    requires
        other != kind,
    ensures
        ({
            let kept = registry.with_slot(kind, Some(sound));
            &&& kept.looked_up(kind, sound.volume_key as nat, true) == (
                kept,
                SoundLookup::Use(sound.sound_id),
            )
            &&& key != sound.volume_key ==> forall|present: bool| #[trigger]
                kept.looked_up(kind, key, present).1 == (SoundLookup::Register {
                    dispose: Some(sound),
                })
            &&& kept.looked_up(kind, key, false).1 == (SoundLookup::Register {
                dispose: Some(sound),
            })
            &&& kept.slot(other) == registry.slot(other)
            &&& forall|present: bool|
                (#[trigger] kept.looked_up(kind, key, present)).0.slot(other) == registry.slot(other)
        }),
{
}

/// How a sound is played in the end.
#[derive(Clone, Copy, Debug, PartialEq, Eq, Structural)]
pub enum PlayBy {
    /// By the sound server, under an ID.
    Server(u32),
    /// By a command line player, from the system sound of a kind.
    Command(SoundKind),
}

/// How a sound is played, given the ID that it is registered under: without one,
/// by the command line player.
pub fn play_by(kind: SoundKind, sound_id: Option<u32>) -> (res: PlayBy)
    ensures
        res == match sound_id {
            Some(id) => PlayBy::Server(id),
            None => PlayBy::Command(kind),
        },
{
    match sound_id {
        Some(id) => PlayBy::Server(id),
        None => PlayBy::Command(kind),
    }
}

/// The name of the file that holds a sound at a volume.
pub open spec fn copy_name(kind: Seq<char>, key: nat) -> Seq<char> {
    kind + "-"@ + decimal(key) + ".wav"@
}

/// The name of the file that holds a sound at a volume.
pub fn copy_file_name(kind: SoundKind, volume: &Volume) -> (res: String)
    requires
        volume.valid(),
    ensures
        res@ == copy_name(kind_name(kind), volume.percent()),
{
    let mut name = match kind {
        SoundKind::Copy => "copy".to_string(),
        SoundKind::Paste => "paste".to_string(),
    };
    name.append("-");
    name.append(to_decimal(volume_key(volume)).as_str());
    name.append(".wav");
    name
}

/// What registering a sound at a volume gives: `created` is the ID that the server
/// made for the file at `path`, if it accepted the file.
pub fn register(volume: &Volume, path: String, created: Option<u32>) -> (res: Option<
    RegisteredSound,
>)
    requires
        volume.valid(),
    ensures
        match (created, res) {
            (Some(id), Some(sound)) => sound.volume_key == volume.percent() && sound.sound_id == id
                && sound.path == path,
            (None, None) => true,
            _ => false,
        },
{
    match created {
        Some(sound_id) => Some(RegisteredSound { volume_key: volume_key(volume), sound_id, path }),
        None => None,
    }
}

/// Whether a file holds the sound at another volume, or from an earlier run.
pub open spec fn is_other_copy(name: Seq<char>, kind: Seq<char>, keep: Seq<char>) -> bool {
    &&& name != keep
    &&& has_prefix(name, kind + "-"@)
    &&& has_suffix(name, ".wav"@)
}

/// Cleaning up after one sound never touches the file of the other.
pub proof fn lemma_cleanup_spares_the_other_sound(
    kind: SoundKind,
    other: SoundKind,
    key: nat,
    keep: Seq<char>,
)
    requires
        other != kind,
    ensures
        !is_other_copy(copy_name(kind_name(other), key), kind_name(kind), keep),
{
    reveal_strlit("copy");
    reveal_strlit("paste");
    let name = copy_name(kind_name(other), key);
    let prefix = kind_name(kind) + "-"@;
    assert(name[0] == kind_name(other)[0]);
    assert(prefix[0] == kind_name(kind)[0]);
    if has_prefix(name, prefix) {
        assert(name.take(prefix.len() as int)[0] == name[0]);
    }
}

/// Cleaning up after a sound finds its files for every other volume, and never the
/// one that was just written.
pub proof fn lemma_cleanup_finds_other_volumes(kind: SoundKind, key: nat, other: nat)
    ensures
        is_other_copy(
            copy_name(kind_name(kind), other),
            kind_name(kind),
            copy_name(kind_name(kind), key),
        ) <==> other != key,
{
    let name = copy_name(kind_name(kind), other);
    let keep = copy_name(kind_name(kind), key);
    let prefix = kind_name(kind) + "-"@;
    let suffix = ".wav"@;
    assert(name.take(prefix.len() as int) =~= prefix);
    assert(name.skip(name.len() - suffix.len()) =~= suffix);
    if name == keep {
        assert(name.subrange(prefix.len() as int, name.len() - suffix.len()) =~= decimal(other));
        assert(keep.subrange(prefix.len() as int, keep.len() - suffix.len()) =~= decimal(key));
        let max = if key >= other {
            key
        } else {
            other
        };
        lemma_decimal_reads_back(key, max);
        lemma_decimal_reads_back(other, max);
    }
}

/// Which of the files named `names` are copies of a sound that are no longer
/// needed once `keep` is written.
pub fn remove_other_copies(names: &Vec<String>, kind: SoundKind, keep: &str) -> (res: Vec<usize>)
    ensures
        forall|i: int| 0 <= i < res@.len() ==> (#[trigger] res@[i]) < names@.len(),
        forall|i: int, j: int| 0 <= i < j < res@.len() ==> res@[i] < res@[j],
        forall|n: usize|
            n < names@.len() ==> (#[trigger] res@.contains(n) <==> is_other_copy(
                names@[n as int]@,
                kind_name(kind),
                keep@,
            )),
{
    let mut prefix = match kind {
        SoundKind::Copy => "copy".to_string(),
        SoundKind::Paste => "paste".to_string(),
    };
    prefix.append("-");
    let mut res: Vec<usize> = Vec::new();
    let mut i: usize = 0;
    while i < names.len()
        invariant
            i <= names@.len(),
            prefix@ == kind_name(kind) + "-"@,
            forall|k: int| 0 <= k < res@.len() ==> (#[trigger] res@[k]) < i,
            forall|j: int, k: int| 0 <= j < k < res@.len() ==> res@[j] < res@[k],
            forall|n: usize|
                n < i ==> (#[trigger] res@.contains(n) <==> is_other_copy(
                    names@[n as int]@,
                    kind_name(kind),
                    keep@,
                )),
        decreases names@.len() - i,
    {
        let name = names[i].as_str();
        let ghost before = res@;
        if !same_text(name, keep) && starts_with(name, prefix.as_str()) && ends_with(name, ".wav") {
            res.push(i);
            assert(res@[before.len() as int] == i);
            assert forall|n: usize| n < i + 1 implies (#[trigger] res@.contains(n) <==> is_other_copy(
                names@[n as int]@,
                kind_name(kind),
                keep@,
            )) by {
                if n < i {
                    assert(before.contains(n) <==> res@.contains(n)) by {
                        if before.contains(n) {
                            let k = choose|k: int| 0 <= k < before.len() && before[k] == n;
                            assert(res@[k] == n);
                        }
                        if res@.contains(n) {
                            let k = choose|k: int| 0 <= k < res@.len() && res@[k] == n;
                            assert(before[k] == n);
                        }
                    }
                }
            }
        }
        i += 1;
    }
    res
}

/// The file of the system sound that the command line player plays.
pub open spec fn command_path(kind: SoundKind) -> Seq<char> {
    "/System/Library/Sounds/"@ + system_sound(kind) + ".aiff"@
}

/// The file of the system sound that the command line player plays.
pub fn afplay_path(kind: SoundKind) -> (res: String)
    ensures
        res@ == command_path(kind),
{
    let mut path = "/System/Library/Sounds/".to_string();
    path.append(
        match kind {
            SoundKind::Paste => "Frog",
            SoundKind::Copy => "Tink",
        },
    );
    path.append(".aiff");
    path
}

/// A request to the thread that talks to the sound server.
#[derive(Clone, Copy, Debug, PartialEq, Eq, Structural)]
pub enum SoundRequest {
    Play { kind: SoundKind, volume: Volume },
    Preload { volume: Volume },
}

/// Something that the thread does for a request.
#[derive(Clone, Copy, Debug, PartialEq, Eq, Structural)]
pub enum SoundTask {
    /// Registers a sound, without playing it.
    Register { kind: SoundKind, volume: Volume },
    Play { kind: SoundKind, volume: Volume },
}

/// What is done for a request that has waited for `waited_nanos`. Feedback that comes
/// late is noise, so a play that waited too long is dropped.
pub open spec fn tasks_for(request: SoundRequest, waited_nanos: u128) -> Seq<SoundTask> {
    match request {
        SoundRequest::Preload { volume } => {
            seq![
                SoundTask::Register { kind: SoundKind::Copy, volume },
                SoundTask::Register { kind: SoundKind::Paste, volume },
            ]
        },
        SoundRequest::Play { kind, volume } => {
            if waited_nanos > STALE_AFTER_NANOS {
                seq![]
            } else {
                seq![SoundTask::Play { kind, volume }]
            }
        },
    }
}

/// Decides what is done for a request that has waited for `waited_nanos`.
pub fn work_for(request: SoundRequest, waited_nanos: u128) -> (res: Vec<SoundTask>)
    ensures
        res@ == tasks_for(request, waited_nanos),
{
    match request {
        SoundRequest::Preload { volume } => {
            vec![
                SoundTask::Register { kind: SoundKind::Copy, volume },
                SoundTask::Register { kind: SoundKind::Paste, volume },
            ]
        },
        SoundRequest::Play { kind, volume } => {
            if waited_nanos > STALE_AFTER_NANOS {
                Vec::new()
            } else {
                vec![SoundTask::Play { kind, volume }]
            }
        },
    }
}

/// A play that waited too long makes no sound and registers nothing; any other is
/// played once, with its sound and volume. A preload registers both sounds at its
/// volume, however long it waited, and plays nothing.
pub proof fn lemma_requests_are_served(
    kind: SoundKind,
    volume: Volume,
    waited_nanos: u128,
    task: SoundTask,
)
    ensures
        tasks_for(SoundRequest::Play { kind, volume }, waited_nanos).len() <= 1,
        tasks_for(SoundRequest::Play { kind, volume }, waited_nanos).contains(task)
            <==> waited_nanos <= STALE_AFTER_NANOS && task == (SoundTask::Play { kind, volume }),
        tasks_for(SoundRequest::Preload { volume }, waited_nanos).contains(task) <==> (task
            matches SoundTask::Register { volume: at, .. } && at == volume),
{
    let play = tasks_for(SoundRequest::Play { kind, volume }, waited_nanos);
    if waited_nanos <= STALE_AFTER_NANOS {
        assert(play[0] == (SoundTask::Play { kind, volume }));
    }
    let both = tasks_for(SoundRequest::Preload { volume }, waited_nanos);
    assert(both[0] == (SoundTask::Register { kind: SoundKind::Copy, volume }));
    assert(both[1] == (SoundTask::Register { kind: SoundKind::Paste, volume }));
}

/// What is done for requests that were taken up one after the other, each with the time
/// that it had waited.
pub open spec fn served(taken: Seq<(SoundRequest, u128)>) -> Seq<SoundTask>
    decreases taken.len(),
{
    if taken.len() == 0 {
        seq![]
    } else {
        served(taken.drop_last()) + tasks_for(taken.last().0, taken.last().1)
    }
}

/// Requests are served in the order in which they come: all that is done for the earlier
/// ones is done before anything is for the later ones.
pub proof fn lemma_requests_are_served_in_order(
    first: Seq<(SoundRequest, u128)>,
    second: Seq<(SoundRequest, u128)>,
)
    ensures
        served(first + second) == served(first) + served(second),
    decreases second.len(),
{
    if second.len() == 0 {
        assert(first + second =~= first);
        assert(served(second) =~= Seq::<SoundTask>::empty());
    } else {
        assert((first + second).drop_last() =~= first + second.drop_last());
        lemma_requests_are_served_in_order(first, second.drop_last());
    }
}

/// The thread that talks to the sound server: the sounds that it has registered, and, as
/// ghost state, the requests that it took up so far and what it did for them.
pub struct SoundWorker {
    pub registry: Registry,
    pub taken: Ghost<Seq<(SoundRequest, u128)>>,
    pub done: Ghost<Seq<SoundTask>>,
}

impl SoundWorker {
    /// The requests that were taken up, in order, with the times that they had waited.
    pub open spec fn requests(self) -> Seq<(SoundRequest, u128)> {
        self.taken@
    }

    /// What was done for them, in order.
    pub open spec fn tasks(self) -> Seq<SoundTask> {
        self.done@
    }

    /// Every request was served, in the order in which it was taken up.
    pub open spec fn wf(self) -> bool {
        self.tasks() == served(self.requests())
    }

    /// A worker that has done nothing.
    pub fn new() -> (res: SoundWorker)
        ensures
            res.wf(),
            res.requests() == Seq::<(SoundRequest, u128)>::empty(),
            res.registry.copy is None,
            res.registry.paste is None,
    {
        SoundWorker { registry: Registry::new(), taken: Ghost(Seq::empty()), done: Ghost(Seq::empty()) }
    }

    /// Takes a request up that has waited for `waited_nanos`: what is to be done for it
    /// next.
    pub fn take_up(&mut self, request: SoundRequest, waited_nanos: u128) -> (res: Vec<SoundTask>)
        requires
            old(self).wf(),
        ensures
            final(self).wf(),
            final(self).requests() == old(self).requests().push((request, waited_nanos)),
            final(self).tasks() == old(self).tasks() + res@,
            res@ == tasks_for(request, waited_nanos),
            final(self).registry == old(self).registry,
    {
        let tasks = work_for(request, waited_nanos);
        proof {
            assert(self.taken@.push((request, waited_nanos)).drop_last() =~= self.taken@);
            self.done@ = self.done@ + tasks@;
            self.taken@ = self.taken@.push((request, waited_nanos));
        }
        tasks
    }
}

/// The handle to the thread: what the first attempt to start it gave, be it a handle or
/// none.
pub struct WorkerHandle<T> {
    tried: bool,
    handle: Option<T>,
}

impl<T> WorkerHandle<T> {
    /// What the first attempt gave, if there was one.
    pub closed spec fn outcome(self) -> Option<Option<T>> {
        if self.tried {
            Some(self.handle)
        } else {
            None
        }
    }

    /// Nothing was attempted yet.
    pub fn new() -> (res: WorkerHandle<T>)
        ensures
            res.outcome() is None,
    {
        WorkerHandle { tried: false, handle: None }
    }

    /// Whether the thread is still to be started.
    pub fn is_fresh(&self) -> (res: bool)
        ensures
            res == self.outcome() is None,
    {
        !self.tried
    }

    /// Keeps what an attempt gave, unless one was made before.
    pub fn keep(&mut self, handle: Option<T>)
        ensures
            final(self).outcome() == match old(self).outcome() {
                Some(first) => Some(first),
                None => Some(handle),
            },
    {
        if !self.tried {
            self.tried = true;
            self.handle = handle;
        }
    }

    /// The handle, which is the same at every call once an attempt was made.
    pub fn worker(&self) -> (res: Option<&T>)
        ensures
            match (self.outcome(), res) {
                (Some(Some(handle)), Some(found)) => handle == *found,
                (Some(Some(_)), None) => false,
                (_, Some(_)) => false,
                (_, None) => true,
            },
    {
        if self.tried {
            self.handle.as_ref()
        } else {
            None
        }
    }
}

/// A play by the command line player: the file of the system sound and the volume.
#[derive(Debug)]
pub struct CommandPlay {
    pub path: String,
    pub volume: Volume,
}

/// What is played by the command line player for a request, where `queued` is whether
/// the thread took it: a play that was not queued, and nothing else, so that no sound
/// is played twice.
pub fn play_unqueued(request: SoundRequest, queued: bool) -> (res: Option<CommandPlay>)
    ensures
        match (request, res) {
            (SoundRequest::Play { kind, volume }, Some(play)) => !queued && play.path@
                == command_path(kind) && play.volume == volume,
            (SoundRequest::Play { .. }, None) => queued,
            (SoundRequest::Preload { .. }, Some(_)) => false,
            (SoundRequest::Preload { .. }, None) => true,
        },
{
    match request {
        SoundRequest::Play { kind, volume } => {
            if queued {
                None
            } else {
                Some(CommandPlay { path: afplay_path(kind), volume })
            }
        },
        SoundRequest::Preload { .. } => None,
    }
}

/// The request for playing a sound at a volume given as a double; none where that
/// is not audible.
pub fn play_clipboard_sound(kind: &str, volume: u64) -> (res: Option<SoundRequest>)
    ensures
        res == match audible(volume) {
            Some(volume) => Some(SoundRequest::Play { kind: kind_named(kind@), volume }),
            None => None,
        },
        res matches Some(SoundRequest::Play { volume, .. }) ==> volume.valid(),
{
    match audible_volume(volume) {
        None => None,
        Some(volume) => Some(SoundRequest::Play { kind: sound_kind(kind), volume }),
    }
}

/// The request for registering both sounds ahead of the first play.
pub fn preload_clipboard_sounds(volume: u64) -> (res: Option<SoundRequest>)
    ensures
        res == match audible(volume) {
            Some(volume) => Some(SoundRequest::Preload { volume }),
            None => None,
        },
        res matches Some(SoundRequest::Preload { volume }) ==> volume.valid(),
{
    match audible_volume(volume) {
        None => None,
        Some(volume) => Some(SoundRequest::Preload { volume }),
    }
}

} // verus!
