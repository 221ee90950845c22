//! The failures that the library reports.

use vstd::prelude::*;
use vstd::string::*;

use crate::text::{append_decimal, decimal};

verus! {

/// The driver that Windows has bound to the device.
#[derive(Debug, Clone, Copy, PartialEq, Eq, Structural)]
pub enum WindowsDriver {
    LibUsbK,
    LibUsb0,
    WinUsb,
    LibUsb0Filter,
    Count,
}

impl WindowsDriver {
    /// The text of `to_string`.
    pub open spec fn spec_to_string(self) -> Seq<char> {
        match self {
            WindowsDriver::LibUsbK => "libusbK"@,
            WindowsDriver::LibUsb0 => "libusb0"@,
            WindowsDriver::WinUsb => "winusb"@,
            WindowsDriver::LibUsb0Filter => "libusb0 filter"@,
            WindowsDriver::Count => "count"@,
        }
    }

    /// The driver's name.
    pub fn to_string(&self) -> (text: String)
        ensures
            text@ == self.spec_to_string(),
    {
        match self {
            WindowsDriver::LibUsbK => String::from_str("libusbK"),
            WindowsDriver::LibUsb0 => String::from_str("libusb0"),
            WindowsDriver::WinUsb => String::from_str("winusb"),
            WindowsDriver::LibUsb0Filter => String::from_str("libusb0 filter"),
            WindowsDriver::Count => String::from_str("count"),
        }
    }
}

/// What the USB library reports when a call fails.
#[derive(Debug, Clone, Copy, PartialEq, Eq, Structural)]
pub enum UsbError {
    /// Input/output error.
    Io,
    /// Invalid parameter.
    InvalidParam,
    /// Access denied (insufficient permissions).
    Access,
    /// No such device (it may have been disconnected).
    NoDevice,
    /// Entity not found.
    NotFound,
    /// Resource busy.
    Busy,
    /// Operation timed out.
    Timeout,
    /// Overflow.
    Overflow,
    /// Pipe error.
    Pipe,
    /// System call interrupted (perhaps due to signal).
    Interrupted,
    /// Insufficient memory.
    NoMem,
    /// Operation not supported or unimplemented on this platform.
    NotSupported,
    /// The device returned a malformed descriptor.
    BadDescriptor,
    /// Other error.
    Other,
}

/// The text that the USB library has for each of its errors.
pub open spec fn usb_error_text(error: UsbError) -> Seq<char> {
    match error {
        UsbError::Io => "Input/Output Error"@,
        UsbError::InvalidParam => "Invalid parameter"@,
        UsbError::Access => "Access denied (insufficient permissions)"@,
        UsbError::NoDevice => "No such device (it may have been disconnected)"@,
        UsbError::NotFound => "Entity not found"@,
        UsbError::Busy => "Resource busy"@,
        UsbError::Timeout => "Operation timed out"@,
        UsbError::Overflow => "Overflow"@,
        UsbError::Pipe => "Pipe error"@,
        UsbError::Interrupted => "System call interrupted (perhaps due to signal)"@,
        UsbError::NoMem => "Insufficient memory"@,
        UsbError::NotSupported => "Operation not supported or unimplemented on this platform"@,
        UsbError::BadDescriptor => "Malformed descriptor"@,
        UsbError::Other => "Other error"@,
    }
}

/// Calls `to_string` on the `rusb::Error` of the same name, that is the
/// `Display` impl of `rusb::Error`. The contract claims that it writes, for
/// each variant, the text that `usb_error_text` gives, as the source of that
/// impl has it.
#[verifier::external_body]
fn usb_error_to_string(error: UsbError) -> (text: String)
    ensures
        text@ == usb_error_text(error),
{
    let outside = match error {
        UsbError::Io => rusb::Error::Io, UsbError::InvalidParam => rusb::Error::InvalidParam,
        UsbError::Access => rusb::Error::Access, UsbError::NoDevice => rusb::Error::NoDevice,
        UsbError::NotFound => rusb::Error::NotFound, UsbError::Busy => rusb::Error::Busy,
        UsbError::Timeout => rusb::Error::Timeout, UsbError::Overflow => rusb::Error::Overflow,
        UsbError::Pipe => rusb::Error::Pipe, UsbError::Interrupted => rusb::Error::Interrupted,
        UsbError::NoMem => rusb::Error::NoMem, UsbError::NotSupported => rusb::Error::NotSupported,
        UsbError::BadDescriptor => rusb::Error::BadDescriptor, UsbError::Other => rusb::Error::Other,
    };
    outside.to_string()
}

impl UsbError {
    /// The text that the USB library has for the error.
    pub fn to_string(&self) -> (text: String)
        ensures
            text@ == usb_error_text(*self),
    {
        usb_error_to_string(*self)
    }
}

/// An error interacting with the Switch in RCM mode.
#[derive(Debug, Clone, PartialEq, Eq)]
#[non_exhaustive]
pub enum SwitchError {
    /// We expected to get a timeout after smashing the stack but we did not.
    ExpectedError,
    /// We cannot find a Switch in RCM mode connected.
    SwitchNotFound,
    /// Unable to claim the Switch's interface of this number.
    UsbBadInterface(u8),
    /// A Linux environment error such as not having the correct USB driver
    /// support.
    LinuxEnv,
    /// The udev rules that give access to the device are not installed.
    UdevRulesNotFound,
    /// USB permission error.
    AccessDenied,
    /// Running on an unsupported platform.
    PlatformNotSupported,
    /// On Windows, the device has the wrong driver; it must be libusbK.
    WindowsWrongDriver(WindowsDriver),
    /// Anything else that can go wrong with the underlying USB library, as
    /// the text that the library has for it.
    Usb(String),
}

impl SwitchError {
    /// The error that a failure of the USB library is reported as: a
    /// permission error has a variant of its own, every other failure is
    /// reported by its text.
    pub open spec fn reports(self, error: UsbError) -> bool {
        match error {
            UsbError::Access => self == SwitchError::AccessDenied,
            _ => self matches SwitchError::Usb(text) && text@ == usb_error_text(error),
        }
    }

    /// The text of `to_string`.
    pub open spec fn spec_to_string(self) -> Seq<char> {
        match self {
            SwitchError::ExpectedError => "Expected timeout error after smashing the stack"@,
            SwitchError::SwitchNotFound => "Nintendo Switch in RCM mode not found"@,
            SwitchError::UsbBadInterface(interface) => "Unable to claim interface: `"@ + decimal(
                interface as nat,
            ) + "`"@,
            SwitchError::LinuxEnv => "Linux environment error"@,
            SwitchError::UdevRulesNotFound => "Udev rules not installed"@,
            SwitchError::AccessDenied => "Access denied (insufficient permissions)"@,
            SwitchError::PlatformNotSupported => "Platform not supported"@,
            SwitchError::WindowsWrongDriver(driver) =>
                "Wrong RCM USB driver installed (installed: `"@ + driver.spec_to_string()
                    + "` but must be libusbK)"@,
            SwitchError::Usb(text) => "Usb Error: `"@ + text@ + "`"@,
        }
    }

    /// What to tell the user about the error.
    pub fn to_string(&self) -> (text: String)
        ensures
            text@ == self.spec_to_string(),
    {
        match self {
            SwitchError::ExpectedError => String::from_str(
                "Expected timeout error after smashing the stack",
            ),
            SwitchError::SwitchNotFound => String::from_str("Nintendo Switch in RCM mode not found"),
            SwitchError::UsbBadInterface(interface) => {
                let mut text = String::from_str("Unable to claim interface: `");
                append_decimal(&mut text, *interface as usize);
                text.append("`");
                text
            },
            SwitchError::LinuxEnv => String::from_str("Linux environment error"),
            SwitchError::UdevRulesNotFound => String::from_str("Udev rules not installed"),
            SwitchError::AccessDenied => String::from_str("Access denied (insufficient permissions)"),
            SwitchError::PlatformNotSupported => String::from_str("Platform not supported"),
            SwitchError::WindowsWrongDriver(driver) => {
                let mut text = String::from_str("Wrong RCM USB driver installed (installed: `");
                let name = driver.to_string();
                text.append(name.as_str());
                text.append("` but must be libusbK)");
                text
            },
            SwitchError::Usb(inner) => {
                let mut text = String::from_str("Usb Error: `");
                text.append(inner.as_str());
                text.append("`");
                text
            },
        }
    }
}

impl SwitchError {
    /// The error that a failure of the USB library is reported as.
    pub fn from(error: UsbError) -> (reported: SwitchError)
        ensures
            reported.reports(error),
    {
        match error {
            UsbError::Access => SwitchError::AccessDenied,
            _ => SwitchError::Usb(error.to_string()),
        }
    }
}

} // verus!
