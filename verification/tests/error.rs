use tegra_rcm::error::{SwitchError, UsbError, WindowsDriver};
use tegra_rcm::switch::TransferError;

const ALL: [UsbError; 14] = [
    UsbError::Io,
    UsbError::InvalidParam,
    UsbError::Access,
    UsbError::NoDevice,
    UsbError::NotFound,
    UsbError::Busy,
    UsbError::Timeout,
    UsbError::Overflow,
    UsbError::Pipe,
    UsbError::Interrupted,
    UsbError::NoMem,
    UsbError::NotSupported,
    UsbError::BadDescriptor,
    UsbError::Other,
];

#[test]
fn usb_error_texts_are_those_of_the_usb_library() {
    let texts = [
        "Input/Output Error",
        "Invalid parameter",
        "Access denied (insufficient permissions)",
        "No such device (it may have been disconnected)",
        "Entity not found",
        "Resource busy",
        "Operation timed out",
        "Overflow",
        "Pipe error",
        "System call interrupted (perhaps due to signal)",
        "Insufficient memory",
        "Operation not supported or unimplemented on this platform",
        "Malformed descriptor",
        "Other error",
    ];
    for (error, text) in ALL.iter().zip(texts) {
        assert_eq!(error.to_string(), text);
    }
}

#[test]
fn usb_error_texts_match_rusb() {
    let outside = [
        rusb::Error::Io,
        rusb::Error::InvalidParam,
        rusb::Error::Access,
        rusb::Error::NoDevice,
        rusb::Error::NotFound,
        rusb::Error::Busy,
        rusb::Error::Timeout,
        rusb::Error::Overflow,
        rusb::Error::Pipe,
        rusb::Error::Interrupted,
        rusb::Error::NoMem,
        rusb::Error::NotSupported,
        rusb::Error::BadDescriptor,
        rusb::Error::Other,
    ];
    for (error, outside) in ALL.iter().zip(outside) {
        assert_eq!(error.to_string(), format!("{}", outside));
    }
}

#[test]
fn access_is_reported_as_access_denied() {
    assert_eq!(SwitchError::from(UsbError::Access), SwitchError::AccessDenied);
}

#[test]
fn other_usb_errors_are_reported_by_their_text() {
    assert_eq!(
        SwitchError::from(UsbError::Timeout),
        SwitchError::Usb("Operation timed out".to_string())
    );
    assert_eq!(
        SwitchError::from(UsbError::NoDevice),
        SwitchError::Usb("No such device (it may have been disconnected)".to_string())
    );
    for error in ALL {
        if error != UsbError::Access {
            assert_eq!(SwitchError::from(error), SwitchError::Usb(error.to_string()));
        }
    }
}

#[test]
fn switch_error_texts() {
    assert_eq!(
        SwitchError::ExpectedError.to_string(),
        "Expected timeout error after smashing the stack"
    );
    assert_eq!(
        SwitchError::SwitchNotFound.to_string(),
        "Nintendo Switch in RCM mode not found"
    );
    assert_eq!(
        SwitchError::UsbBadInterface(0).to_string(),
        "Unable to claim interface: `0`"
    );
    assert_eq!(
        SwitchError::UsbBadInterface(255).to_string(),
        "Unable to claim interface: `255`"
    );
    assert_eq!(SwitchError::LinuxEnv.to_string(), "Linux environment error");
    assert_eq!(SwitchError::UdevRulesNotFound.to_string(), "Udev rules not installed");
    assert_eq!(
        SwitchError::AccessDenied.to_string(),
        "Access denied (insufficient permissions)"
    );
    assert_eq!(SwitchError::PlatformNotSupported.to_string(), "Platform not supported");
    assert_eq!(
        SwitchError::WindowsWrongDriver(WindowsDriver::WinUsb).to_string(),
        "Wrong RCM USB driver installed (installed: `winusb` but must be libusbK)"
    );
    assert_eq!(
        SwitchError::Usb("Pipe error".to_string()).to_string(),
        "Usb Error: `Pipe error`"
    );
}

#[test]
fn windows_driver_names() {
    assert_eq!(WindowsDriver::LibUsbK.to_string(), "libusbK");
    assert_eq!(WindowsDriver::LibUsb0.to_string(), "libusb0");
    assert_eq!(WindowsDriver::WinUsb.to_string(), "winusb");
    assert_eq!(WindowsDriver::LibUsb0Filter.to_string(), "libusb0 filter");
    assert_eq!(WindowsDriver::Count.to_string(), "count");
}

#[test]
fn transfer_error_knows_a_timeout() {
    let timeout = TransferError::from(UsbError::Timeout);
    assert!(timeout.timed_out);
    assert_eq!(timeout.error, SwitchError::Usb("Operation timed out".to_string()));
    for error in ALL {
        let failure = TransferError::from(error);
        assert_eq!(failure.timed_out, error == UsbError::Timeout);
        assert_eq!(failure.error, SwitchError::from(error));
    }
}
