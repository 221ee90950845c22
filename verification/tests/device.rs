use tegra_rcm::device::{
    validate_driver, DeviceId, InitOutcome, Switch, SwitchDevice, SwitchDeviceRaw, ENDPOINT_IN,
    ENDPOINT_OUT, INTERFACE, RCM_PID, RCM_VID, TIMEOUT_SECONDS,
};
use tegra_rcm::error::{SwitchError, UsbError, WindowsDriver};

fn id(vendor_id: u16, product_id: u16) -> Result<DeviceId, UsbError> {
    Ok(DeviceId {
        vendor_id,
        product_id,
    })
}

#[test]
fn usb_constants() {
    assert_eq!(RCM_VID, 0x0955);
    assert_eq!(RCM_PID, 0x7321);
    assert_eq!(INTERFACE, 0);
    assert_eq!(ENDPOINT_IN, 0x81);
    assert_eq!(ENDPOINT_OUT, 0x01);
    assert_eq!(TIMEOUT_SECONDS, 1);
}

#[test]
fn default_raw_device_is_the_switch() {
    let raw = SwitchDeviceRaw::default();
    assert_eq!(raw, SwitchDeviceRaw::new(0x0955, 0x7321));
    assert_eq!(raw.vid, 0x0955);
    assert_eq!(raw.pid, 0x7321);
}

#[test]
fn match_needs_both_ids() {
    let raw = SwitchDeviceRaw::new(0x0955, 0x7321);
    assert!(raw.is_match(&DeviceId { vendor_id: 0x0955, product_id: 0x7321 }));
    assert!(!raw.is_match(&DeviceId { vendor_id: 0x0955, product_id: 0x7322 }));
    assert!(!raw.is_match(&DeviceId { vendor_id: 0x0956, product_id: 0x7321 }));
    assert!(!raw.is_match(&DeviceId { vendor_id: 0x7321, product_id: 0x0955 }));
}

#[test]
fn find_device_takes_the_first_match() {
    let raw = SwitchDeviceRaw::default();
    let devices = [
        id(0x1d6b, 0x0002),
        id(0x0955, 0x7321),
        id(0x8087, 0x0024),
        id(0x0955, 0x7321),
    ];
    assert_eq!(raw.find_device(&devices), Ok(1));
}

#[test]
fn find_device_without_a_match() {
    let raw = SwitchDeviceRaw::default();
    assert_eq!(raw.find_device(&[]), Err(SwitchError::SwitchNotFound));
    let devices = [id(0x1d6b, 0x0002), id(0x0955, 0x7320)];
    assert_eq!(raw.find_device(&devices), Err(SwitchError::SwitchNotFound));
}

#[test]
fn find_device_stops_at_an_unreadable_descriptor() {
    let raw = SwitchDeviceRaw::default();
    let devices = [id(1, 2), Err(UsbError::Access), id(0x0955, 0x7321)];
    assert_eq!(raw.find_device(&devices), Err(SwitchError::AccessDenied));
    let devices = [id(1, 2), Err(UsbError::Io), id(0x0955, 0x7321)];
    assert_eq!(
        raw.find_device(&devices),
        Err(SwitchError::Usb("Input/Output Error".to_string()))
    );
}

#[test]
fn find_device_matches_before_an_unreadable_descriptor() {
    let raw = SwitchDeviceRaw::default();
    let devices = [id(0x0955, 0x7321), Err(UsbError::Io)];
    assert_eq!(raw.find_device(&devices), Ok(0));
}

#[test]
fn find_device_with_custom_ids() {
    let raw = SwitchDeviceRaw::new(1, 2);
    let devices = [id(0x0955, 0x7321), id(1, 2)];
    assert_eq!(raw.find_device(&devices), Ok(1));
}

#[test]
fn retry_only_while_waiting_and_failing() {
    assert!(SwitchDeviceRaw::retry(true, &Err(SwitchError::SwitchNotFound)));
    assert!(SwitchDeviceRaw::retry(true, &Err(SwitchError::AccessDenied)));
    assert!(!SwitchDeviceRaw::retry(false, &Err(SwitchError::SwitchNotFound)));
    assert!(!SwitchDeviceRaw::retry(true, &Ok(0)));
    assert!(!SwitchDeviceRaw::retry(false, &Ok(0)));
}

#[test]
fn init_asks_for_the_claim_once() {
    let mut device = SwitchDevice::with_device_handle();
    assert!(!device.is_claimed());
    assert_eq!(device.init(), Some(0));
    assert_eq!(device.claim(Ok(())), Ok(()));
    assert!(device.is_claimed());
    assert_eq!(device.init(), None);
    assert_eq!(device.init(), None);
    assert!(device.is_claimed());
}

#[test]
fn failed_claim_leaves_the_device_unclaimed() {
    let mut device = SwitchDevice::with_device_handle();
    assert_eq!(device.claim(Err(UsbError::Busy)), Err(SwitchError::UsbBadInterface(0)));
    assert!(!device.is_claimed());
    assert_eq!(device.init(), Some(0));
    assert_eq!(device.claim(Err(UsbError::Access)), Err(SwitchError::AccessDenied));
    assert!(!device.is_claimed());
    assert_eq!(device.claim(Ok(())), Ok(()));
    assert!(device.is_claimed());
}

#[test]
fn claim_errors() {
    assert_eq!(SwitchDevice::report_claim(UsbError::Access), SwitchError::AccessDenied);
    assert_eq!(SwitchDevice::report_claim(UsbError::Busy), SwitchError::UsbBadInterface(0));
    assert_eq!(SwitchDevice::report_claim(UsbError::NotFound), SwitchError::UsbBadInterface(0));
    assert_eq!(SwitchDevice::report_claim(UsbError::Timeout), SwitchError::UsbBadInterface(0));
}

#[test]
fn switch_find() {
    let devices = [id(0x1d6b, 0x0002), id(0x0955, 0x7321)];
    let switch = Switch::find(&devices).unwrap();
    assert_eq!(switch.position(), 1);
    assert_eq!(Switch::find(&devices[..1]), Err(SwitchError::SwitchNotFound));
    assert_eq!(Switch::find(&[]), Err(SwitchError::SwitchNotFound));
    assert_eq!(
        Switch::find(&[Err(UsbError::NoMem)]),
        Err(SwitchError::Usb("Insufficient memory".to_string()))
    );
}

#[test]
fn switch_of_an_arrived_device() {
    let switch = Switch::new(DeviceId { vendor_id: 0x0955, product_id: 0x7321 });
    assert_eq!(switch.position(), 0);
}

#[test]
fn switch_handle() {
    let mut switch = Switch::find(&[id(0x0955, 0x7321)]).unwrap();
    assert!(switch.handle(InitOutcome::Ready).is_ok());
    assert_eq!(
        switch.handle(InitOutcome::OpenFailed(UsbError::Access)).unwrap_err(),
        SwitchError::AccessDenied
    );
    assert_eq!(
        switch.handle(InitOutcome::OpenFailed(UsbError::NoDevice)).unwrap_err(),
        SwitchError::Usb("No such device (it may have been disconnected)".to_string())
    );
    assert_eq!(
        switch.handle(InitOutcome::ClaimFailed(UsbError::Busy)).unwrap_err(),
        SwitchError::UsbBadInterface(0)
    );
    assert_eq!(
        switch.handle(InitOutcome::ClaimFailed(UsbError::Access)).unwrap_err(),
        SwitchError::AccessDenied
    );
    assert_eq!(
        switch.handle(InitOutcome::Rejected(SwitchError::UdevRulesNotFound)).unwrap_err(),
        SwitchError::UdevRulesNotFound
    );
    assert_eq!(switch.position(), 0);
}

#[test]
fn only_libusbk_is_accepted() {
    assert_eq!(validate_driver(WindowsDriver::LibUsbK), Ok(()));
    for driver in [
        WindowsDriver::LibUsb0,
        WindowsDriver::WinUsb,
        WindowsDriver::LibUsb0Filter,
        WindowsDriver::Count,
    ] {
        assert_eq!(validate_driver(driver), Err(SwitchError::WindowsWrongDriver(driver)));
    }
}
