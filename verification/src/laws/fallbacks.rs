//! Laws of what has no counterpart on the system.

use vstd::prelude::*;

use crate::apps::{
    get_associated_apps, get_executable_icon, get_file_icon, get_system_default_app,
    launch_uwp_with_file, scan_installed_apps,
};
use crate::geometry::Rect;
use crate::win_clipboard::{
    get_clipboard_files, get_clipboard_image, get_clipboard_raw_format, set_clipboard_files,
    set_clipboard_image_with_formats, set_clipboard_text_and_html, ImageData,
};
use crate::window_ext::WindowExt;
use crate::window_tracker::{get_active_app_info, get_clipboard_source_app_info, ActiveAppInfo};

verus! {

/// Reading the clipboard finds nothing, whatever was written before; writing succeeds.
pub proof fn law_clipboard_stays_empty(
    paths: Vec<String>,
    text: &str,
    html: &str,
    data: ImageData,
    gif: Option<&[u8]>,
    png: Option<&[u8]>,
    path: Option<&str>,
    name: &str,
    wrote_files: Result<(), String>,
    wrote_text: Result<(), String>,
    wrote_image: Result<Option<String>, String>,
    image: Option<ImageData>,
    files: Option<Vec<String>>,
    raw: Option<Vec<u8>>,
)
    requires
        call_ensures(set_clipboard_files, (paths,), wrote_files),
        call_ensures(set_clipboard_text_and_html, (text, html), wrote_text),
        call_ensures(set_clipboard_image_with_formats, (data, gif, png, path), wrote_image),
        call_ensures(get_clipboard_image, (), image),
        call_ensures(get_clipboard_files, (), files),
        call_ensures(get_clipboard_raw_format, (name,), raw),
    ensures
        wrote_files is Ok,
        wrote_text is Ok,
        wrote_image is Ok && wrote_image->Ok_0 is None,
        image is None,
        files is None,
        raw is None,
{
}

/// No application is found and no icon; opening a file with one succeeds.
pub proof fn law_no_applications_are_found(
    package: &str,
    ext: &str,
    path: String,
    launched: Result<(), String>,
    default: String,
    executable_icon: Result<Option<String>, String>,
    file_icon: Result<Option<String>, String>,
    installed: Vec<serde_json::Value>,
    associated: Vec<serde_json::Value>,
)
    requires
        call_ensures(launch_uwp_with_file, (package, ext), launched),
        call_ensures(get_system_default_app, (ext,), default),
        call_ensures(get_executable_icon, (path,), executable_icon),
        call_ensures(get_file_icon, (path,), file_icon),
        call_ensures(scan_installed_apps, (), installed),
        call_ensures(get_associated_apps, (ext,), associated),
    ensures
        launched is Ok,
        default@.len() == 0,
        executable_icon is Ok && executable_icon->Ok_0 is None,
        file_icon is Ok && file_icon->Ok_0 is None,
        installed@.len() == 0,
        associated@.len() == 0,
{
}

/// No window of another application is known, and an error is reported with its title in
/// front.
pub proof fn law_no_windows_are_found(
    hwnd: isize,
    title: &str,
    msg: &str,
    foreground: isize,
    rect: Option<Rect>,
    line: String,
)
    requires
        call_ensures(WindowExt::get_foreground_window, (), foreground),
        call_ensures(WindowExt::get_window_rect, (hwnd,), rect),
        call_ensures(WindowExt::show_error_box, (title, msg), line),
    ensures
        foreground == 0,
        rect is None,
        line@ == seq!['E', 'R', 'R', 'O', 'R', ':', ' '] + title@ + seq![':', ' '] + msg@,
{
    reveal_strlit("ERROR: ");
    reveal_strlit(": ");
    assert("ERROR: "@ =~= seq!['E', 'R', 'R', 'O', 'R', ':', ' ']);
    assert(": "@ =~= seq![':', ' ']);
}

/// The application in front and the one behind the clipboard are both named by the
/// stand-in, without a path.
pub proof fn law_applications_have_a_stand_in(active: ActiveAppInfo, source: ActiveAppInfo)
    requires
        call_ensures(get_active_app_info, (), active),
        call_ensures(get_clipboard_source_app_info, (), source),
    ensures
        active.app_name@ == "FallbackApp"@,
        active.process_path is None,
        source.app_name@ == active.app_name@,
        source.process_path is None,
{
}

} // verus!
