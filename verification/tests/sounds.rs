use std::collections::HashSet;

use tiez_shell::bundled_sound::{sound_kind, SoundKind};
use tiez_shell::macos_sound::{
    afplay_path, copy_file_name, normalize_kind, play_by, play_clipboard_sound, play_unqueued,
    preload_clipboard_sounds, register, remove_other_copies, set_sound_dir, sound_dir,
    system_sound_name, work_for, PlayBy, RegisteredSound, Registry, SoundDir, SoundLookup,
    SoundRequest, SoundTask, SoundWorker, WorkerHandle, STALE_AFTER_NANOS,
};
use tiez_shell::platform::Platform;
use tiez_shell::settings_store::Stored;
use tiez_shell::ui_sound;
use tiez_shell::ui_sound::{
    paste_sound_enabled, play_ui_sound, play_ui_sound_at_volume, preload_ui_sounds, SoundSettings,
    UiSound,
};
use tiez_shell::volume::{volume_key, Volume};

const COPY_KIND: SoundKind = SoundKind::Copy;
const PASTE_KIND: SoundKind = SoundKind::Paste;

fn volume(fraction: f32) -> Volume {
    Volume { bits: fraction.to_bits() }
}

/// A sound server and the files that it reads from.
struct Server {
    files: HashSet<String>,
    registered: HashSet<u32>,
    next_id: u32,
}

impl Server {
    fn new() -> Server {
        Server { files: HashSet::new(), registered: HashSet::new(), next_id: 1 }
    }

    fn register(&mut self, kind: SoundKind, volume: &Volume) -> Option<RegisteredSound> {
        let path = copy_file_name(kind, volume);
        let names: Vec<String> = self.files.iter().cloned().collect();
        for index in remove_other_copies(&names, kind, &path) {
            self.files.remove(&names[index]);
        }
        self.files.insert(path.clone());
        let id = self.next_id;
        self.next_id += 1;
        self.registered.insert(id);
        register(volume, path, Some(id))
    }

    fn dispose(&mut self, sound: RegisteredSound) {
        self.registered.remove(&sound.sound_id);
        self.files.remove(&sound.path);
    }

    fn sound_id_for(
        &mut self,
        registry: &mut Registry,
        kind: SoundKind,
        fraction: f32,
    ) -> Option<u32> {
        let volume = volume(fraction);
        let present = registry.path_of(kind).is_some_and(|path| self.files.contains(path));
        match registry.sound_id_for(kind, &volume, present) {
            SoundLookup::Use(id) => Some(id),
            SoundLookup::Register { dispose } => {
                if let Some(sound) = dispose {
                    self.dispose(sound);
                }
                let registered = self.register(kind, &volume);
                registry.keep(kind, registered)
            }
        }
    }
}

#[test]
fn registers_the_paste_sound_and_keeps_its_file_until_dropped() {
    let mut server = Server::new();
    for fraction in [1.0f32, 0.4] {
        let registered =
            server.register(PASTE_KIND, &volume(fraction)).expect("sound server accepted the WAV");
        assert_eq!(registered.volume_key, volume_key(&volume(fraction)));
        assert_ne!(registered.sound_id, 0);
        assert!(
            server.files.contains(&registered.path),
            "the server re-reads the file on later plays"
        );

        let path = registered.path.clone();
        server.dispose(registered);
        assert!(!server.files.contains(&path));
    }
}

#[test]
fn re_registers_the_copy_sound_when_volume_changes_or_the_file_vanishes() {
    let mut server = Server::new();
    let mut registry = Registry::new();

    let first = server.sound_id_for(&mut registry, COPY_KIND, 0.7).expect("registered at 70%");
    assert_eq!(server.sound_id_for(&mut registry, COPY_KIND, 0.7), Some(first));

    let second = server.sound_id_for(&mut registry, COPY_KIND, 0.3).expect("registered at 30%");
    assert_ne!(second, first);

    let path = registry.copy.as_ref().map(|s| s.path.clone()).expect("copy sound registered");
    server.files.remove(&path);

    let third = server.sound_id_for(&mut registry, COPY_KIND, 0.3).expect("re-registered");
    assert_ne!(third, second);
    assert!(server.files.contains(&path));
}

#[test]
fn the_two_sounds_do_not_touch_each_other() {
    let mut server = Server::new();
    let mut registry = Registry::new();
    let copy = server.sound_id_for(&mut registry, COPY_KIND, 0.5).unwrap();
    let paste = server.sound_id_for(&mut registry, PASTE_KIND, 0.5).unwrap();
    assert_ne!(copy, paste);
    server.sound_id_for(&mut registry, PASTE_KIND, 0.6).unwrap();
    assert_eq!(server.sound_id_for(&mut registry, COPY_KIND, 0.5), Some(copy));
    assert_eq!(server.registered.len(), 2);
    assert!(server.files.contains("copy-50.wav"));
    assert!(server.files.contains("paste-60.wav"));
    assert_eq!(server.files.len(), 2);
}

#[test]
fn a_refused_file_falls_back_to_the_command() {
    assert!(register(&volume(0.5), "x".to_string(), None).is_none());
    let mut registry = Registry::new();
    assert_eq!(registry.keep(COPY_KIND, None), None);
    assert_eq!(play_by(COPY_KIND, None), PlayBy::Command(COPY_KIND));
    assert_eq!(play_by(PASTE_KIND, Some(9)), PlayBy::Server(9));
    assert_eq!(afplay_path(COPY_KIND), "/System/Library/Sounds/Tink.aiff");
    assert_eq!(afplay_path(PASTE_KIND), "/System/Library/Sounds/Frog.aiff");
}

#[test]
fn names_of_sounds() {
    assert_eq!(normalize_kind("paste"), "paste");
    assert_eq!(normalize_kind("copy"), "copy");
    assert_eq!(normalize_kind("Paste"), "copy");
    assert_eq!(normalize_kind(""), "copy");
    assert_eq!(system_sound_name("paste"), "Frog");
    assert_eq!(system_sound_name("delete"), "Tink");
    assert_eq!(sound_kind("paste"), PASTE_KIND);
    assert_eq!(copy_file_name(COPY_KIND, &volume(0.07)), "copy-7.wav");
    assert_eq!(copy_file_name(PASTE_KIND, &volume(1.0)), "paste-100.wav");
    assert_eq!(copy_file_name(PASTE_KIND, &volume(0.001)), "paste-0.wav");
}

#[test]
fn only_other_copies_of_the_same_sound_go() {
    let names: Vec<String> = [
        "copy-50.wav",
        "copy-70.wav",
        "paste-50.wav",
        "copy-old.wav",
        "copy-50.aiff",
        "copy.wav",
        "a-copy-1.wav",
        "copy-.wav",
    ]
    .iter()
    .map(|name| name.to_string())
    .collect();
    assert_eq!(remove_other_copies(&names, COPY_KIND, "copy-70.wav"), vec![0, 3, 7]);
    assert_eq!(remove_other_copies(&names, PASTE_KIND, "paste-70.wav"), vec![2]);
    assert_eq!(remove_other_copies(&Vec::new(), PASTE_KIND, "paste-70.wav"), Vec::<usize>::new());
}

#[test]
fn late_plays_are_dropped() {
    let play = SoundRequest::Play { kind: COPY_KIND, volume: volume(0.5) };
    assert_eq!(
        work_for(play, STALE_AFTER_NANOS),
        vec![SoundTask::Play { kind: COPY_KIND, volume: volume(0.5) }]
    );
    assert!(work_for(play, STALE_AFTER_NANOS + 1).is_empty());
    let preload = SoundRequest::Preload { volume: volume(0.5) };
    assert_eq!(
        work_for(preload, STALE_AFTER_NANOS * 10),
        vec![
            SoundTask::Register { kind: COPY_KIND, volume: volume(0.5) },
            SoundTask::Register { kind: PASTE_KIND, volume: volume(0.5) },
        ]
    );
}

#[test]
fn requests_are_served_in_order() {
    let mut worker = SoundWorker::new();
    let half = volume(0.5);
    let queue = [
        (SoundRequest::Preload { volume: half }, 5),
        (SoundRequest::Play { kind: PASTE_KIND, volume: half }, 0),
        (SoundRequest::Play { kind: COPY_KIND, volume: half }, STALE_AFTER_NANOS + 1),
        (SoundRequest::Play { kind: COPY_KIND, volume: half }, 7),
    ];
    let mut done = Vec::new();
    for (request, waited) in queue {
        done.extend(worker.take_up(request, waited));
    }
    assert_eq!(
        done,
        vec![
            SoundTask::Register { kind: COPY_KIND, volume: half },
            SoundTask::Register { kind: PASTE_KIND, volume: half },
            SoundTask::Play { kind: PASTE_KIND, volume: half },
            SoundTask::Play { kind: COPY_KIND, volume: half },
        ]
    );
    assert!(worker.registry.copy.is_none() && worker.registry.paste.is_none());
}

#[test]
fn the_first_attempt_to_start_the_thread_counts() {
    let mut handle: WorkerHandle<u32> = WorkerHandle::new();
    assert!(handle.is_fresh());
    assert_eq!(handle.worker(), None);
    handle.keep(Some(1));
    handle.keep(Some(2));
    assert!(!handle.is_fresh());
    assert_eq!(handle.worker(), Some(&1));

    let mut failed: WorkerHandle<u32> = WorkerHandle::new();
    failed.keep(None);
    failed.keep(Some(3));
    assert!(!failed.is_fresh());
    assert_eq!(failed.worker(), None);
}

#[test]
fn a_play_that_is_not_queued_goes_to_the_command() {
    let paste = SoundRequest::Play { kind: PASTE_KIND, volume: volume(0.25) };
    let play = play_unqueued(paste, false).unwrap();
    assert_eq!(play.path, "/System/Library/Sounds/Frog.aiff");
    assert_eq!(play.volume, volume(0.25));
    assert!(play_unqueued(paste, true).is_none());
    let copy = SoundRequest::Play { kind: COPY_KIND, volume: volume(1.0) };
    assert_eq!(play_unqueued(copy, false).unwrap().path, "/System/Library/Sounds/Tink.aiff");
    let preload = SoundRequest::Preload { volume: volume(0.5) };
    assert!(play_unqueued(preload, false).is_none());
    assert!(play_unqueued(preload, true).is_none());
}

#[test]
fn requests_need_an_audible_volume() {
    assert_eq!(
        play_clipboard_sound("paste", 0.25f64.to_bits()),
        Some(SoundRequest::Play { kind: PASTE_KIND, volume: volume(0.25) })
    );
    assert_eq!(play_clipboard_sound("paste", 0.0f64.to_bits()), None);
    assert_eq!(
        preload_clipboard_sounds(3.0f64.to_bits()),
        Some(SoundRequest::Preload { volume: volume(1.0) })
    );
    assert_eq!(preload_clipboard_sounds((-0.5f64).to_bits()), None);
}

#[test]
fn the_first_directory_counts() {
    let mut cell: SoundDir<String> = SoundDir::new();
    assert_eq!(sound_dir(&cell), None);
    set_sound_dir(&mut cell, "first".to_string());
    set_sound_dir(&mut cell, "second".to_string());
    assert_eq!(sound_dir(&cell), Some(&"first".to_string()));

    let mut cell: SoundDir<u32> = SoundDir::new();
    ui_sound::set_sound_dir(Platform::Windows, &mut cell, 1);
    assert_eq!(sound_dir(&cell), None);
    ui_sound::set_sound_dir(Platform::MacOs, &mut cell, 2);
    ui_sound::set_sound_dir(Platform::MacOs, &mut cell, 3);
    assert_eq!(sound_dir(&cell), Some(&2));
}

fn settings(sound: bool, paste: bool, volume: Option<f64>) -> SoundSettings {
    SoundSettings {
        sound_enabled: sound,
        paste_sound_enabled: paste,
        sound_volume: volume.map(|v| v.to_bits()),
    }
}

#[test]
fn the_stored_setting_decides_where_memory_has_pastes_off() {
    let off = settings(true, false, None);
    assert!(paste_sound_enabled(&off, &Stored::Value("true".to_string())));
    assert!(!paste_sound_enabled(&off, &Stored::Value("false".to_string())));
    assert!(!paste_sound_enabled(&off, &Stored::Value("TRUE".to_string())));
    assert!(paste_sound_enabled(&off, &Stored::Missing));
    assert!(paste_sound_enabled(&off, &Stored::Unreadable));
    let on = settings(true, true, None);
    assert!(paste_sound_enabled(&on, &Stored::Value("false".to_string())));
}

#[test]
fn a_sound_is_played_where_it_is_switched_on() {
    let no = Stored::Value("false".to_string());
    assert_eq!(play_ui_sound(&settings(false, true, Some(0.5)), &Stored::Missing, "copy"), None);
    assert_eq!(
        play_ui_sound(&settings(true, false, Some(0.5)), &no, "copy"),
        Some(0.5f64.to_bits())
    );
    assert_eq!(play_ui_sound(&settings(true, false, Some(0.5)), &no, "paste"), None);
    assert_eq!(
        play_ui_sound(&settings(true, true, None), &no, "paste"),
        Some(1.0f64.to_bits())
    );
}

#[test]
fn the_system_decides_how_a_sound_is_played() {
    let half = 0.5f64.to_bits();
    match play_ui_sound_at_volume(Platform::MacOs, "paste", half) {
        Some(UiSound::Server(SoundRequest::Play { kind, volume: v })) => {
            assert_eq!(kind, PASTE_KIND);
            assert_eq!(v, volume(0.5));
        }
        _ => panic!("a request to the server was expected"),
    }
    assert!(matches!(
        play_ui_sound_at_volume(Platform::Windows, "paste", half),
        Some(UiSound::Bundled(_))
    ));
    assert!(play_ui_sound_at_volume(Platform::Other, "paste", 0.0f64.to_bits()).is_none());
    assert_eq!(
        preload_ui_sounds(Platform::MacOs, half),
        Some(SoundRequest::Preload { volume: volume(0.5) })
    );
    assert_eq!(preload_ui_sounds(Platform::Windows, half), None);
}
