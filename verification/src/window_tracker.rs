//! The foreground application where windows cannot be tracked.

use vstd::prelude::*;

verus! {

/// The application that a window or a clipboard entry belongs to.
#[derive(Debug, Clone, Default)]
pub struct ActiveAppInfo {
    pub app_name: String,
    pub process_path: Option<String>,
}

/// The stand-in for an application that cannot be named.
pub open spec fn is_fallback_app(info: ActiveAppInfo) -> bool {
    info.app_name@ == "FallbackApp"@ && info.process_path is None
}

fn fallback_app() -> (res: ActiveAppInfo)
    ensures
        is_fallback_app(res),
{
    ActiveAppInfo { app_name: "FallbackApp".to_string(), process_path: None }
}

/// The application in the foreground.
pub fn get_active_app_info() -> (res: ActiveAppInfo)
    ensures
        is_fallback_app(res),
{
    fallback_app()
}

/// The application that the clipboard's content came from.
pub fn get_clipboard_source_app_info() -> (res: ActiveAppInfo)
    ensures
        is_fallback_app(res),
{
    fallback_app()
}

} // verus!
