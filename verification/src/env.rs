//! Checks of the environment that do not depend on a device.

use vstd::prelude::*;

use crate::error::SwitchError;

verus! {

/// Where the udev rules for the device are installed.
pub const UDEV_RULES: &'static str = "/etc/udev/rules.d/99-switch.rules";

/// Where the udev rules of the host are seen from inside a Flatpak sandbox.
pub const FLATPAK_UDEV_RULES: &'static str = "/run/host/etc/udev/rules.d/99-switch.rules";

/// The environment variable that switches the check for the udev rules off.
pub const SKIP_UDEV_CHECK_VARIABLE: &'static str = "SWITCHEROO_SKIP_UDEV_CHECK";

/// The environment variable that is set inside a Flatpak sandbox.
pub const FLATPAK_VARIABLE: &'static str = "FLATPAK_ID";

/// The operating system that the program runs on.
#[derive(Debug, Clone, Copy, PartialEq, Eq, Structural)]
pub enum Platform {
    Linux,
    MacOs,
    Windows,
}

/// What the check of the environment looks at.
#[derive(Debug, Clone, Copy, PartialEq, Eq, Structural)]
pub struct Environment {
    pub platform: Platform,
    /// Whether `SKIP_UDEV_CHECK_VARIABLE` is set.
    pub skip_udev_check: bool,
    /// Whether a file exists at the path that `udev_rules_path` gives.
    pub udev_rules_found: bool,
}

impl Environment {
    /// Whether the environment is in order: anywhere but on Linux, and on
    /// Linux where the udev rules are installed or the check is switched
    /// off.
    pub open spec fn in_order(self) -> bool {
        self.platform != Platform::Linux || self.skip_udev_check || self.udev_rules_found
    }
}

/// The path at which the udev rules are looked for: inside a Flatpak
/// sandbox, where the host's files are seen.
pub fn udev_rules_path(flatpak: bool) -> (path: &'static str)
    ensures
        flatpak ==> path@ == FLATPAK_UDEV_RULES@,
        !flatpak ==> path@ == UDEV_RULES@,
{
    if flatpak {
        FLATPAK_UDEV_RULES
    } else {
        UDEV_RULES
    }
}

/// Validates the environment.
pub fn check_env(environment: &Environment) -> (result: Result<(), SwitchError>)
    ensures
        environment.in_order() ==> result is Ok,
        !environment.in_order() ==> result == Err::<(), SwitchError>(
            SwitchError::UdevRulesNotFound,
        ),
{
    match environment.platform {
        Platform::Linux => {
            if environment.skip_udev_check {
                return Ok(());
            }
            if environment.udev_rules_found {
                Ok(())
            } else {
                Err(SwitchError::UdevRulesNotFound)
            }
        },
        _ => Ok(()),
    }
}

} // verus!
