use tiez_shell::apps::{
    get_associated_apps, get_executable_icon, get_file_icon, get_system_default_app,
    launch_uwp_with_file, scan_installed_apps,
};
use tiez_shell::win_clipboard::{
    get_clipboard_files, get_clipboard_image, get_clipboard_raw_format,
    get_clipboard_sequence_number, set_clipboard_files, set_clipboard_image_with_formats,
    set_clipboard_text_and_html, ClipboardSequence, ImageData, NamedClipboardFormat,
};
use tiez_shell::window_ext::WindowExt;
use tiez_shell::window_tracker::{get_active_app_info, get_clipboard_source_app_info};

#[test]
fn sequence_numbers_count_up_from_one() {
    let mut sequence = ClipboardSequence::new();
    assert_eq!(get_clipboard_sequence_number(&mut sequence), 1);
    assert_eq!(get_clipboard_sequence_number(&mut sequence), 2);
    assert_eq!(get_clipboard_sequence_number(&mut sequence), 3);
}

#[test]
fn the_clipboard_is_empty_and_accepts_anything() {
    assert!(get_clipboard_image().is_none());
    assert!(get_clipboard_files().is_none());
    assert!(get_clipboard_raw_format("HTML Format").is_none());
    assert_eq!(set_clipboard_files(vec!["a".to_string()]), Ok(()));
    assert_eq!(set_clipboard_text_and_html("a", "<b>a</b>"), Ok(()));
    let image = ImageData { width: 1, height: 1, bytes: vec![0, 0, 0, 0] };
    assert_eq!(set_clipboard_image_with_formats(image, None, Some(&[1]), Some("p")), Ok(None));
    let format = NamedClipboardFormat { name: "n".to_string(), data: vec![1] };
    assert_eq!(format.clone(), format);
}

#[test]
fn no_application_is_found() {
    assert_eq!(launch_uwp_with_file("p", "f"), Ok(()));
    assert_eq!(get_system_default_app("txt"), "");
    assert_eq!(get_executable_icon("a.exe".to_string()), Ok(None));
    assert_eq!(get_file_icon("a.txt".to_string()), Ok(None));
    assert!(scan_installed_apps().is_empty());
    assert!(get_associated_apps("txt").is_empty());
}

#[test]
fn the_foreground_application_has_a_stand_in() {
    assert_eq!(get_active_app_info().app_name, "FallbackApp");
    assert!(get_active_app_info().process_path.is_none());
    assert_eq!(get_clipboard_source_app_info().app_name, "FallbackApp");
}

#[test]
fn foreign_windows_cannot_be_reached() {
    assert_eq!(WindowExt::show_error_box("Title", "text"), "ERROR: Title: text");
    assert_eq!(WindowExt::get_foreground_window(), 0);
    assert!(WindowExt::get_window_rect(1).is_none());
    WindowExt::release_modifier_keys();
    WindowExt::force_focus_window(1);
    WindowExt::show_window_no_activate(1);
    WindowExt::show_window_no_activate_normal(1);
}
