//! What a front end shows when it cannot start.

use vstd::prelude::*;
use vstd::string::*;

use crate::error::SwitchError;

verus! {

/// Where the troubleshooting guide starts.
pub const TROUBLESHOOTING: &'static str = "https://budde25.github.io/switcheroo/troubleshooting/";

/// The part of the guide on missing permissions on Linux.
pub const TROUBLESHOOTING_PERMISSION: &'static str =
    "https://budde25.github.io/switcheroo/troubleshooting/#linux-permission-denied-error";

/// The part of the guide on the wrong driver on Windows.
pub const TROUBLESHOOTING_DRIVER: &'static str =
    "https://budde25.github.io/switcheroo/troubleshooting/#windows-wrong-driver-error";

/// The explanation that goes with an error.
pub open spec fn error_text(error: SwitchError) -> Seq<char> {
    match error {
        SwitchError::UdevRulesNotFound =>
            "Udev rules not installed and must be installed separately, see the following for instructions"@,
        SwitchError::AccessDenied => "USB permission error, see the following to troubleshoot:"@,
        SwitchError::WindowsWrongDriver(driver) =>
            "Wrong USB driver installed, expected libusbK but found `"@ + driver.spec_to_string()
                + "`, see the following to troubleshoot:"@,
        _ => error.spec_to_string(),
    }
}

/// The part of the troubleshooting guide that goes with an error.
pub open spec fn error_link(error: SwitchError) -> Seq<char> {
    match error {
        SwitchError::UdevRulesNotFound => TROUBLESHOOTING_PERMISSION@,
        SwitchError::AccessDenied => TROUBLESHOOTING_PERMISSION@,
        SwitchError::WindowsWrongDriver(_) => TROUBLESHOOTING_DRIVER@,
        _ => TROUBLESHOOTING@,
    }
}

/// The explanation of an error and the link to the part of the
/// troubleshooting guide that deals with it.
pub fn gen_error(error: &SwitchError) -> (shown: (String, String))
    ensures
        shown.0@ == error_text(*error),
        shown.1@ == error_link(*error),
{
    match error {
        SwitchError::UdevRulesNotFound => {
            let text =
                "Udev rules not installed and must be installed separately, see the following for instructions";
            (String::from_str(text), String::from_str(TROUBLESHOOTING_PERMISSION))
        },
        SwitchError::AccessDenied => {
            let text = "USB permission error, see the following to troubleshoot:";
            (String::from_str(text), String::from_str(TROUBLESHOOTING_PERMISSION))
        },
        SwitchError::WindowsWrongDriver(driver) => {
            let mut text = String::from_str(
                "Wrong USB driver installed, expected libusbK but found `",
            );
            let name = driver.to_string();
            text.append(name.as_str());
            text.append("`, see the following to troubleshoot:");
            (text, String::from_str(TROUBLESHOOTING_DRIVER))
        },
        other => (other.to_string(), String::from_str(TROUBLESHOOTING)),
    }
}

/// An error that keeps the front end from starting, as it is shown.
#[derive(Debug, Clone, PartialEq, Eq)]
pub struct InitError {
    error: String,
    hyperlink: String,
}

impl InitError {
    /// The explanation that is shown.
    pub closed spec fn spec_error(&self) -> Seq<char> {
        self.error@
    }

    /// The link that is shown.
    pub closed spec fn spec_hyperlink(&self) -> Seq<char> {
        self.hyperlink@
    }

    /// What is shown for `error`.
    pub fn new(error: SwitchError) -> (shown: InitError)
        ensures
            shown.spec_error() == error_text(error),
            shown.spec_hyperlink() == error_link(error),
    {
        let (error, hyperlink) = gen_error(&error);
        InitError { error, hyperlink }
    }

    /// The explanation that is shown.
    pub fn error(&self) -> (text: &str)
        ensures
            text@ == self.spec_error(),
    {
        self.error.as_str()
    }

    /// The link that is shown.
    pub fn hyperlink(&self) -> (link: &str)
        ensures
            link@ == self.spec_hyperlink(),
    {
        self.hyperlink.as_str()
    }
}

} // verus!
