//! Installed applications where there is no registry of them: none is found, and
//! launching one does nothing.

use vstd::prelude::*;

verus! {

/// `serde_json::Value`, of which only empty lists are handed out.
#[verifier::external_type_specification]
#[verifier::external_body]
pub struct ExValue(serde_json::Value);

/// Opens `_file` with an application package; nothing is launched.
pub fn launch_uwp_with_file(_package: &str, _file: &str) -> (res: Result<(), String>)
    ensures
        res is Ok,
{
    Ok(())
}

/// The application that opens files with the extension `_ext`: none.
pub fn get_system_default_app(_ext: &str) -> (res: String)
    ensures
        res@.len() == 0,
{
    String::new()
}

/// The icon of an executable: none.
pub fn get_executable_icon(_executable_path: String) -> (res: Result<Option<String>, String>)
    ensures
        res == Ok::<Option<String>, String>(None),
{
    Ok(None)
}

/// The icon of a file: none.
pub fn get_file_icon(_file_path: String) -> (res: Result<Option<String>, String>)
    ensures
        res == Ok::<Option<String>, String>(None),
{
    Ok(None)
}

/// The installed applications: none.
pub fn scan_installed_apps() -> (res: Vec<serde_json::Value>)
    ensures
        res@.len() == 0,
{
    Vec::new()
}

/// The applications that open files with the extension `_ext`: none.
pub fn get_associated_apps(_ext: &str) -> (res: Vec<serde_json::Value>)
    ensures
        res@.len() == 0,
{
    Vec::new()
}

} // verus!
