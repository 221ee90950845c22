//! Finding the device on the bus and claiming its interface.
//!
//! The calls that reach the bus are the caller's. This module holds what is
//! decided about their results: which of the attached devices is taken, when
//! the interface is claimed, and how a failure is reported.

use vstd::prelude::*;

use crate::buffer::BufferState;
use crate::error::{SwitchError, UsbError, WindowsDriver};
use crate::switch::Handle;

verus! {

/// Vendor ID of a Switch in RCM mode.
pub const RCM_VID: u16 = 0x0955;

/// Product ID of a Switch in RCM mode.
pub const RCM_PID: u16 = 0x7321;

/// The only interface of the device.
pub const INTERFACE: u8 = 0;

/// The endpoint that bulk transfers from the device use.
pub const ENDPOINT_IN: u8 = 0x81;

/// The endpoint that bulk transfers to the device use.
pub const ENDPOINT_OUT: u8 = 0x01;

/// Every transfer is given this many seconds.
pub const TIMEOUT_SECONDS: u64 = 1;

/// The IDs in the descriptor of an attached device.
#[derive(Debug, Clone, Copy, PartialEq, Eq, Structural)]
pub struct DeviceId {
    pub vendor_id: u16,
    pub product_id: u16,
}

/// A Switch device that has not been looked for yet: the IDs to look for.
#[derive(Debug, Clone, Copy, PartialEq, Eq, Structural)]
pub struct SwitchDeviceRaw {
    pub vid: u16,
    pub pid: u16,
}

impl SwitchDeviceRaw {
    /// Whether a device with these IDs is the one looked for.
    pub open spec fn matches(self, id: DeviceId) -> bool {
        id.vendor_id == self.vid && id.product_id == self.pid
    }

    /// Whether the search goes past this entry of the bus scan: its
    /// descriptor was read and is not the one looked for.
    pub open spec fn passes(self, entry: Result<DeviceId, UsbError>) -> bool {
        entry matches Ok(id) && !self.matches(id)
    }

    /// The position from `from` on of the first entry that the search does
    /// not go past, or the number of entries where there is none.
    pub open spec fn stop_from(self, devices: Seq<Result<DeviceId, UsbError>>, from: nat) -> nat
        decreases devices.len() - from,
    {
        if from >= devices.len() {
            devices.len()
        } else if !self.passes(devices[from as int]) {
            from
        } else {
            self.stop_from(devices, from + 1)
        }
    }

    /// The position at which the search through `devices` stops.
    pub open spec fn first_stop(self, devices: Seq<Result<DeviceId, UsbError>>) -> nat {
        self.stop_from(devices, 0)
    }

    /// Creates a new device description with a custom vid and pid.
    pub fn new(vid: u16, pid: u16) -> (raw: SwitchDeviceRaw)
        ensures
            raw == (SwitchDeviceRaw { vid, pid }),
    {
        SwitchDeviceRaw { vid, pid }
    }

    /// Whether a device with these IDs is the one looked for.
    pub fn is_match(&self, id: &DeviceId) -> (found: bool)
        ensures
            found == self.matches(*id),
    {
        id.vendor_id == self.vid && id.product_id == self.pid
    }

    /// Goes through the devices on the bus in the order of the scan, each
    /// given by its descriptor's IDs or by the failure to read them, and
    /// returns the position of the first one that matches.
    ///
    /// A descriptor that could not be read ends the search with that
    /// failure. Without a match the result is `SwitchNotFound`.
    pub fn find_device(&self, devices: &[Result<DeviceId, UsbError>]) -> (found: Result<
        usize,
        SwitchError,
    >)
        ensures
            self.first_stop(devices@) <= devices@.len(),
            self.first_stop(devices@) == devices@.len() ==> found == Err::<usize, SwitchError>(
                SwitchError::SwitchNotFound,
            ),
            self.first_stop(devices@) < devices@.len() ==> match devices@[self.first_stop(
                devices@,
            ) as int] {
                Ok(id) => found == Ok::<usize, SwitchError>(self.first_stop(devices@) as usize),
                Err(failure) => found matches Err(error) && error.reports(failure),
            },
    {
        let mut position: usize = 0;
        while position < devices.len()
            invariant
                position <= devices@.len(),
                self.first_stop(devices@) == self.stop_from(devices@, position as nat),
            decreases devices@.len() - position,
        {
            match &devices[position] {
                Ok(id) => {
                    if self.is_match(id) {
                        return Ok(position);
                    }
                },
                Err(failure) => {
                    return Err(SwitchError::from(*failure));
                },
            }
            position += 1;
        }
        Err(SwitchError::SwitchNotFound)
    }

    /// Whether to look again after a second, given what the last search came
    /// to: while the caller waits for the device, after every failure.
    pub fn retry(wait: bool, found: &Result<usize, SwitchError>) -> (again: bool)
        ensures
            again == (wait && found is Err),
    {
        wait && found.is_err()
    }
}

impl Default for SwitchDeviceRaw {
    /// The IDs of a Switch in RCM mode.
    fn default() -> (raw: SwitchDeviceRaw)
        ensures
            raw == rcm_search(),
    {
        SwitchDeviceRaw::new(RCM_VID, RCM_PID)
    }
}

/// Where the search stops, every entry before was gone past, and the entry
/// there is not.
pub proof fn lemma_first_stop(raw: SwitchDeviceRaw, devices: Seq<Result<DeviceId, UsbError>>)
    ensures
        raw.first_stop(devices) <= devices.len(),
        forall|i: int| 0 <= i < raw.first_stop(devices) ==> raw.passes(#[trigger] devices[i]),
        raw.first_stop(devices) < devices.len() ==> !raw.passes(
            devices[raw.first_stop(devices) as int],
        ),
{
    lemma_stop_from(raw, devices, 0);
}

proof fn lemma_stop_from(raw: SwitchDeviceRaw, devices: Seq<Result<DeviceId, UsbError>>, from: nat)
    requires
        from <= devices.len(),
    ensures
        from <= raw.stop_from(devices, from) <= devices.len(),
        forall|i: int| from <= i < raw.stop_from(devices, from) ==> raw.passes(#[trigger] devices[i]),
        raw.stop_from(devices, from) < devices.len() ==> !raw.passes(
            devices[raw.stop_from(devices, from) as int],
        ),
    decreases devices.len() - from,
{
    if from < devices.len() && raw.passes(devices[from as int]) {
        lemma_stop_from(raw, devices, from + 1);
    }
}

/// An opened device and whether its interface has been claimed.
#[derive(Debug, Clone, Copy, PartialEq, Eq, Structural)]
pub struct SwitchDevice {
    claimed: bool,
}

impl SwitchDevice {
    /// Whether the interface has been claimed.
    pub closed spec fn spec_is_claimed(&self) -> bool {
        self.claimed
    }

    /// The interface that has to be claimed now, if any: none once it has
    /// been claimed.
    pub open spec fn claim_due(self) -> Option<u8> {
        if self.spec_is_claimed() {
            None
        } else {
            Some(INTERFACE)
        }
    }

    /// The state after a claim of the interface came to `outcome`.
    pub open spec fn claimed_after(self, outcome: Result<(), UsbError>) -> bool {
        self.spec_is_claimed() || outcome is Ok
    }

    /// The error that a failed claim of the interface is reported as.
    pub open spec fn claim_error(failure: UsbError) -> SwitchError {
        match failure {
            UsbError::Access => SwitchError::AccessDenied,
            _ => SwitchError::UsbBadInterface(INTERFACE),
        }
    }

    /// A device that was opened a moment ago: nothing is claimed.
    pub fn with_device_handle() -> (device: SwitchDevice)
        ensures
            !device.spec_is_claimed(),
    {
        SwitchDevice { claimed: false }
    }

    /// Whether the interface has been claimed.
    #[verifier::when_used_as_spec(spec_is_claimed)]
    pub fn is_claimed(&self) -> (claimed: bool)
        ensures
            claimed == self.spec_is_claimed(),
    {
        self.claimed
    }

    /// Init the device: the interface that has to be claimed now, or `None`
    /// where it has been claimed before, so that nothing is left to do.
    pub fn init(&self) -> (claim: Option<u8>)
        ensures
            claim == self.claim_due(),
    {
        if !self.claimed {
            Some(INTERFACE)
        } else {
            None
        }
    }

    /// Takes note of what the claim that `init` asked for came to. A
    /// permission failure is reported as `AccessDenied`, every other failure
    /// as `UsbBadInterface`.
    pub fn claim(&mut self, outcome: Result<(), UsbError>) -> (result: Result<(), SwitchError>)
        ensures
            final(self).spec_is_claimed() == old(self).claimed_after(outcome),
            match outcome {
                Ok(_) => result is Ok,
                Err(failure) => result == Err::<(), SwitchError>(Self::claim_error(failure)),
            },
    {
        match outcome {
            Ok(_) => {
                self.claimed = true;
                Ok(())
            },
            Err(failure) => Err(Self::report_claim(failure)),
        }
    }

    /// The error that a failed claim of the interface is reported as.
    #[verifier::when_used_as_spec(claim_error)]
    pub fn report_claim(failure: UsbError) -> (error: SwitchError)
        ensures
            error == Self::claim_error(failure),
    {
        match failure {
            UsbError::Access => SwitchError::AccessDenied,
            _ => SwitchError::UsbBadInterface(INTERFACE),
        }
    }
}

/// Once the interface has been claimed, `init` asks for no further claim,
/// and the interface stays claimed whatever a claim in between came to.
pub proof fn lemma_claim_once(device: SwitchDevice, outcome: Result<(), UsbError>)
    requires
        device.spec_is_claimed(),
    ensures
        device.claim_due() is None,
        device.claimed_after(outcome),
{
}

/// How far the preparation of a found device came.
#[derive(Debug, Clone, PartialEq, Eq)]
pub enum InitOutcome {
    /// The device could not be opened.
    OpenFailed(UsbError),
    /// The device was opened, and its interface could not be claimed.
    ClaimFailed(UsbError),
    /// The interface was claimed, and the check of the environment failed.
    Rejected(SwitchError),
    /// The device is open, its interface claimed, the environment in order.
    Ready,
}

/// A Switch in RCM mode that was found on the bus.
#[derive(Debug, Clone, Copy, PartialEq, Eq, Structural)]
pub struct Switch {
    position: usize,
}

impl Switch {
    /// The position of the device in the bus scan that found it.
    pub closed spec fn spec_position(&self) -> usize {
        self.position
    }

    /// Whether these are the IDs of a Switch in RCM mode.
    pub open spec fn is_rcm(id: DeviceId) -> bool {
        id.vendor_id == RCM_VID && id.product_id == RCM_PID
    }

    /// A Switch that the system reported as attached. The IDs are those of
    /// its descriptor, which must be the IDs of a Switch in RCM mode.
    pub fn new(id: DeviceId) -> (switch: Switch)
        requires
            Self::is_rcm(id),
        ensures
            switch.spec_position() == 0,
    {
        Switch { position: 0 }
    }

    /// Finds the Switch among the devices on the bus, each given by its
    /// descriptor's IDs or by the failure to read them.
    pub fn find(devices: &[Result<DeviceId, UsbError>]) -> (found: Result<Switch, SwitchError>)
        ensures
            rcm_search().first_stop(devices@) == devices@.len() ==> found == Err::<
                Switch,
                SwitchError,
            >(SwitchError::SwitchNotFound),
            rcm_search().first_stop(devices@) < devices@.len() ==> match devices@[rcm_search().first_stop(
                devices@,
            ) as int] {
                Ok(id) => found matches Ok(switch) && switch.spec_position()
                    == rcm_search().first_stop(devices@) && Self::is_rcm(id),
                Err(failure) => found matches Err(error) && error.reports(failure),
            },
    {
        let raw = SwitchDeviceRaw::new(RCM_VID, RCM_PID);
        proof {
            lemma_first_stop(raw, devices@);
            assert(devices@.len() == devices.len());
        }
        match raw.find_device(devices) {
            Ok(position) => Ok(Switch { position }),
            Err(error) => Err(error),
        }
    }

    /// The position of the device in the bus scan that found it.
    #[verifier::when_used_as_spec(spec_position)]
    pub fn position(&self) -> (position: usize)
        ensures
            position == self.spec_position(),
    {
        self.position
    }

    /// Gets the Switch handle, given how far the caller came in opening the
    /// device, claiming its interface and checking the environment.
    pub fn handle(&mut self, init: InitOutcome) -> (result: Result<Handle, SwitchError>)
        ensures
            *final(self) == *old(self),
            init is Ready <==> result is Ok,
            result matches Ok(handle) ==> handle.spec_current_buffer() == BufferState::Low
                && handle.spec_total_written() == 0,
            init matches InitOutcome::OpenFailed(failure) ==> result matches Err(error)
                && error.reports(failure),
            init matches InitOutcome::ClaimFailed(failure) ==> result == Err::<Handle, SwitchError>(
                SwitchDevice::claim_error(failure),
            ),
            init matches InitOutcome::Rejected(error) ==> result == Err::<Handle, SwitchError>(error),
    {
        match init {
            InitOutcome::OpenFailed(failure) => Err(SwitchError::from(failure)),
            InitOutcome::ClaimFailed(failure) => Err(SwitchDevice::report_claim(failure)),
            InitOutcome::Rejected(error) => Err(error),
            InitOutcome::Ready => Ok(Handle::new()),
        }
    }
}

/// The search for a Switch in RCM mode.
pub open spec fn rcm_search() -> SwitchDeviceRaw {
    SwitchDeviceRaw { vid: RCM_VID, pid: RCM_PID }
}

/// On Windows, the device can be spoken to only through libusbK: any other
/// driver is reported with its name.
pub fn validate_driver(installed: WindowsDriver) -> (result: Result<(), SwitchError>)
    ensures
        installed == WindowsDriver::LibUsbK ==> result is Ok,
        installed != WindowsDriver::LibUsbK ==> result == Err::<(), SwitchError>(
            SwitchError::WindowsWrongDriver(installed),
        ),
{
    match installed {
        WindowsDriver::LibUsbK => Ok(()),
        _ => Err(SwitchError::WindowsWrongDriver(installed)),
    }
}

} // verus!
