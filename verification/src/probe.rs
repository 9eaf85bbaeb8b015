//! The platform probe: a normalized view of the host's compatibility facts
//! and read-only lookups into Steam's local installation registry.
//!
//! All filesystem and registry access happens here, behind small trusted
//! wrappers; everything layered on top of them is verified.

use vstd::prelude::*;

verus! {

#[verifier::external_type_specification]
#[verifier::external_body]
pub struct ExInfo(os_info::Info);

#[verifier::external_type_specification]
#[verifier::external_body]
pub struct ExSteamDir(steamlocate::SteamDir);

/// Relies on `os_info::get`: a read-only probe of the host's operating-system
/// release information. What it reports depends on the machine, so nothing is
/// promised of the result.
#[verifier::external_body]
pub(crate) fn host_info() -> os_info::Info {
    os_info::get()
}

/// Relies on `os_info::Info::os_type`: returns the reported classification.
/// True exactly when that classification is `os_info::Type::Linux`; which one
/// the host reports depends on the machine, so nothing is promised of the
/// result.
#[verifier::external_body]
pub(crate) fn reports_linux(info: &os_info::Info) -> bool {
    matches!(info.os_type(), os_info::Type::Linux)
}

/// Relies on `os_info::Info::architecture`: the raw architecture string the
/// host reported, if any. Machine-dependent, so nothing is promised of the
/// result.
#[verifier::external_body]
pub(crate) fn host_architecture(info: &os_info::Info) -> Option<String> {
    info.architecture().map(|a| a.to_owned())
}

/// Relies on `steamlocate::SteamDir::locate`: attempts to find a Steam
/// installation on this machine. Absence and failure (not found, unreadable,
/// malformed) are collapsed into `None` alike; whether a handle comes back
/// depends on the machine, so nothing is promised of the result.
#[verifier::external_body]
pub(crate) fn locate_registry() -> Option<steamlocate::SteamDir> {
    steamlocate::SteamDir::locate().ok()
}

/// Relies on `steamlocate::SteamDir::find_app` and on the `launcher_path`
/// field of `steamlocate::App`: queries the registry for an application with
/// the given identifier and hands back its recorded launcher path. An absent
/// identifier, a failed query, a missing launcher path and a non-Unicode path
/// all collapse into `None`; the registry's content depends on the machine,
/// so nothing is promised of the result.
#[verifier::external_body]
fn find_launcher_path(dir: &steamlocate::SteamDir, app_id: u32) -> Option<String> {
    let (app, _library) = dir.find_app(app_id).ok()??;
    let path = app.launcher_path?;
    path.into_os_string().into_string().ok()
}

/// The label of the one operating-system family this build of the tool
/// supports. The tool is built once per target, so the label is fixed at
/// compile time rather than detected at run time.
pub fn get_operating_system_type() -> (r: &'static str)
    ensures
        r@ == "Linux"@,
{
    "Linux"
}

/// Looks up the install path recorded for a title identifier. Without a
/// registry handle there is nothing to query, so the result is `None`;
/// with one, the result is whatever the registry records for that
/// identifier, `None` standing for "cannot hand the user a path".
pub fn get_app_path(steam_dir: &Option<steamlocate::SteamDir>, app_id: u32) -> (r: Option<
    String,
>)
    ensures
        steam_dir is None ==> r is None,
{
    match steam_dir {
        None => None,
        Some(dir) => find_launcher_path(dir, app_id),
    }
}

} // verus!
