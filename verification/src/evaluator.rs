//! The requirement evaluator: applies policy to the platform probe's raw
//! facts and assembles the aggregate report.

use vstd::prelude::*;

use crate::probe::get_app_path;
use crate::probe::get_operating_system_type;
use crate::probe::host_architecture;
use crate::probe::host_info;
use crate::probe::locate_registry;
use crate::probe::reports_linux;
use crate::report::RequirementState;
use crate::report::Requirements;

verus! {

pub const MW3_APP_ID: u32 = 115300;

pub const BO2_APP_ID: u32 = 202970;

pub const BO2_MP_APP_ID: u32 = 202990;

pub const BO1_APP_ID: u32 = 42700;

pub const BO1_MP_APP_ID: u32 = 42710;

pub const WAW_APP_ID: u32 = 10090;

/// The remediation message shown when the reported operating-system
/// classification is not the supported family; it names the given label.
pub open spec fn spec_os_not_met_message(os_name: Seq<char>) -> Seq<char> {
    "The current operating system ("@ + os_name
        + ") is not supported - <u>Linux is required</u>. If you're using Windows, please use the <a tabindex=\"9999\" target=\"_blank\" href=\"https://plutonium.pw/\">Plutonium Launcher</a> instead."@
}

/// The remediation message shown when the reported architecture is not the
/// supported one; it names the reported value.
pub open spec fn spec_arch_not_met_message(arch: Seq<char>) -> Seq<char> {
    "The current operating system architecture ("@ + arch
        + ") is not supported. The only supported architecture is x86_64 (the standard for Intel and AMD CPUs)."@
}

/// The remediation message shown when no Steam installation was found.
pub open spec fn spec_steam_not_met_message() -> Seq<char> {
    "Steam is not installed or could not be found. If you are sure Steam is installed, please make sure that it has been ran at least once."@
}

/// The reported architecture as it appears in remediation text: the raw
/// string where the host reported one, the `"unknown"` sentinel otherwise.
pub open spec fn spec_reported_arch(arch: Option<String>) -> Seq<char> {
    match arch {
        Some(a) => a@,
        None => "unknown"@,
    }
}

/// The architecture check accepts exactly one reported value.
pub open spec fn spec_arch_supported(arch: Option<String>) -> bool {
    match arch {
        Some(a) => a@ == "x86_64"@,
        None => false,
    }
}

/// Builds `prefix`, then `value`, then `suffix`, as one string.
fn compose_message(prefix: &str, value: &str, suffix: &str) -> (r: String)
    ensures
        r@ == prefix@ + value@ + suffix@,
{
    let mut message = String::from_str(prefix);
    message.append(value);
    message.append(suffix);
    message
}

/// Operating-system check: the tool supports exactly one operating-system
/// family, and `os_is_supported_family` says whether the host's reported
/// classification is that family. On failure the message names the given
/// label.
pub fn check_operating_system(os_is_supported_family: bool, os_name: &str) -> (r:
    RequirementState)
    ensures
        r is Met <==> os_is_supported_family,
        !os_is_supported_family ==> (r matches RequirementState::NotMet { message }
            && message@ == spec_os_not_met_message(os_name@)),
{
    if os_is_supported_family {
        RequirementState::Met
    } else {
        RequirementState::NotMet {
            message: compose_message(
                "The current operating system (",
                os_name,
                ") is not supported - <u>Linux is required</u>. If you're using Windows, please use the <a tabindex=\"9999\" target=\"_blank\" href=\"https://plutonium.pw/\">Plutonium Launcher</a> instead.",
            ),
        }
    }
}

/// Architecture check: supported exactly when the host reported `"x86_64"`.
/// On failure the message names the reported value, or the `"unknown"`
/// sentinel where the host reported none.
pub fn check_architecture(arch: &Option<String>) -> (r: RequirementState)
    ensures
        r is Met <==> spec_arch_supported(*arch),
        !spec_arch_supported(*arch) ==> (r matches RequirementState::NotMet { message }
            && message@ == spec_arch_not_met_message(spec_reported_arch(*arch))),
{
    let supported = String::from_str("x86_64");
    let reported: &str = match arch {
        Some(a) => a.as_str(),
        None => "unknown",
    };
    if match arch {
        Some(a) => *a == supported,
        None => false,
    } {
        RequirementState::Met
    } else {
        RequirementState::NotMet {
            message: compose_message(
                "The current operating system architecture (",
                reported,
                ") is not supported. The only supported architecture is x86_64 (the standard for Intel and AMD CPUs).",
            ),
        }
    }
}

/// Steam-presence check: met exactly when a registry handle was located.
/// The remediation text is the same whether Steam is absent or merely
/// unreadable, so the check only needs to know whether a handle exists.
pub fn check_platform_presence(steam_located: bool) -> (r: RequirementState)
    ensures
        r is Met <==> steam_located,
        !steam_located ==> (r matches RequirementState::NotMet { message }
            && message@ == spec_steam_not_met_message()),
{
    if steam_located {
        RequirementState::Met
    } else {
        RequirementState::NotMet {
            message: String::from_str(
                "Steam is not installed or could not be found. If you are sure Steam is installed, please make sure that it has been ran at least once.",
            ),
        }
    }
}

/// Evaluates the three gating checks against the host, resolves the six
/// title install paths through the located registry handle (all six are
/// `None` where no handle exists), and assembles the aggregate report.
/// Path lookups run even when earlier checks failed, so the report can
/// carry partial information.
pub fn get_requirements() -> (r: Requirements)
    ensures
        r.wf(),
        r.steam is NotMet ==> (r.mw3_path is None && r.bo2_path is None && r.bo2_mp_path is None
            && r.bo1_path is None && r.bo1_mp_path is None && r.waw_path is None),
        r.operating_system matches RequirementState::NotMet { message } ==> message@
            == spec_os_not_met_message("Linux"@),
        r.architecture matches RequirementState::NotMet { message } ==> exists|reported: Seq<
            char,
        >| message@ == spec_arch_not_met_message(reported),
        r.steam matches RequirementState::NotMet { message } ==> message@
            == spec_steam_not_met_message(),
{
    let info = host_info();
    let os_name = get_operating_system_type();
    let steam_dir = locate_registry();

    let operating_system = check_operating_system(reports_linux(&info), os_name);
    let arch = host_architecture(&info);
    let architecture = check_architecture(&arch);
    let steam_installed = check_platform_presence(steam_dir.is_some());

    Requirements::new(
        operating_system,
        architecture,
        steam_installed,
        get_app_path(&steam_dir, MW3_APP_ID),
        get_app_path(&steam_dir, BO2_APP_ID),
        get_app_path(&steam_dir, BO2_MP_APP_ID),
        get_app_path(&steam_dir, BO1_APP_ID),
        get_app_path(&steam_dir, BO1_MP_APP_ID),
        get_app_path(&steam_dir, WAW_APP_ID),
    )
}

/// Capability gate reported to the presentation layer; it currently always
/// answers `false`.
pub fn is_setup() -> (r: bool)
    ensures
        r == false,
{
    false
}

} // verus!
