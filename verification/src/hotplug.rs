//! What is told about the device arriving on the bus and leaving it.
//!
//! Two sources serve: the hotplug events of the USB library, and, where
//! those are not to be had, changes in the directory of the USB device
//! nodes, after each of which the bus is searched again. Both come to the
//! same events.

use vstd::prelude::*;
use vstd::string::*;

use crate::device::{DeviceId, Switch};
use crate::error::SwitchError;

verus! {

/// Why no events can be had.
#[derive(Debug, Clone, Copy, PartialEq, Eq, Structural)]
pub enum HotplugError {
    /// The hotplug API is not supported on this platform.
    NotSupported,
    /// The directory of the device nodes cannot be watched.
    Watcher,
}

impl HotplugError {
    /// The text of `to_string`.
    pub open spec fn spec_to_string(self) -> Seq<char> {
        match self {
            HotplugError::NotSupported => "The hotplug API is not supported on this platform"@,
            HotplugError::Watcher => "The USB device directory cannot be watched"@,
        }
    }

    /// What to tell the user about the error.
    pub fn to_string(&self) -> (text: String)
        ensures
            text@ == self.spec_to_string(),
    {
        match self {
            HotplugError::NotSupported => String::from_str(
                "The hotplug API is not supported on this platform",
            ),
            HotplugError::Watcher => String::from_str("The USB device directory cannot be watched"),
        }
    }
}

/// Whether hotplug events can be asked for, given what the USB library says
/// of its hotplug capability.
pub fn check_hotplug(has_hotplug: bool) -> (result: Result<(), HotplugError>)
    ensures
        has_hotplug ==> result is Ok,
        !has_hotplug ==> result == Err::<(), HotplugError>(HotplugError::NotSupported),
{
    if !has_hotplug {
        return Err(HotplugError::NotSupported);
    }
    Ok(())
}

/// The kinds of change in a watched directory.
#[derive(Debug, Clone, Copy, PartialEq, Eq, Structural)]
pub enum WatchEvent {
    Any,
    Access,
    Create,
    Modify,
    Remove,
    Other,
}

impl WatchEvent {
    /// Whether the bus is searched again after a change of this kind: after
    /// a device node was created or removed, and after no other change.
    pub open spec fn spec_triggers_search(self) -> bool {
        self == WatchEvent::Create || self == WatchEvent::Remove
    }

    /// Whether the bus is searched again after a change of this kind.
    #[verifier::when_used_as_spec(spec_triggers_search)]
    pub fn triggers_search(self) -> (search: bool)
        ensures
            search == self.spec_triggers_search(),
    {
        match self {
            WatchEvent::Create | WatchEvent::Remove => true,
            _ => false,
        }
    }
}

/// What happened to the device.
#[derive(Debug, Clone, PartialEq, Eq)]
pub enum HotplugEvent {
    /// A Switch in RCM mode is attached.
    Arrived(Switch),
    /// No Switch in RCM mode is attached.
    Left,
    /// A Switch in RCM mode is attached and cannot be used.
    Error(SwitchError),
}

impl HotplugEvent {
    /// The event that a search of the bus comes to: a device that was found,
    /// none, or a device that cannot be used, which is told apart from none.
    pub open spec fn of_search(found: Result<Switch, SwitchError>) -> HotplugEvent {
        match found {
            Ok(switch) => HotplugEvent::Arrived(switch),
            Err(SwitchError::SwitchNotFound) => HotplugEvent::Left,
            Err(error) => HotplugEvent::Error(error),
        }
    }

    /// What subscribers are sent for the event.
    pub open spec fn spec_message(self) -> Result<Switch, SwitchError> {
        match self {
            HotplugEvent::Arrived(switch) => Ok(switch),
            HotplugEvent::Left => Err(SwitchError::SwitchNotFound),
            HotplugEvent::Error(error) => Err(error),
        }
    }

    /// The event for a device that the USB library reported as arrived, by
    /// the IDs of its descriptor, which must be those of a Switch in RCM
    /// mode: the library is asked for no other.
    pub fn arrived(id: DeviceId) -> (event: HotplugEvent)
        requires
            Switch::is_rcm(id),
        ensures
            event matches HotplugEvent::Arrived(switch) && switch.spec_position() == 0,
    {
        HotplugEvent::Arrived(Switch::new(id))
    }

    /// The event for a device that the USB library reported as gone.
    pub fn left() -> (event: HotplugEvent)
        ensures
            event == HotplugEvent::Left,
    {
        HotplugEvent::Left
    }

    /// The event that a search of the bus comes to.
    pub fn found(found: Result<Switch, SwitchError>) -> (event: HotplugEvent)
        ensures
            event == Self::of_search(found),
    {
        match found {
            Ok(switch) => HotplugEvent::Arrived(switch),
            Err(SwitchError::SwitchNotFound) => HotplugEvent::Left,
            Err(error) => HotplugEvent::Error(error),
        }
    }

    /// What subscribers are sent for the event.
    pub fn message(self) -> (message: Result<Switch, SwitchError>)
        ensures
            message == self.spec_message(),
    {
        match self {
            HotplugEvent::Arrived(switch) => Ok(switch),
            HotplugEvent::Left => Err(SwitchError::SwitchNotFound),
            HotplugEvent::Error(error) => Err(error),
        }
    }
}

/// Subscribers are sent what a search of the bus came to, unchanged.
pub proof fn lemma_search_is_sent(found: Result<Switch, SwitchError>)
    ensures
        HotplugEvent::of_search(found).spec_message() == found,
{
}

/// A device that is attached and cannot be used is not taken for an absent
/// one: only `SwitchNotFound` comes to `Left`.
pub proof fn lemma_unusable_is_told(error: SwitchError)
    ensures
        HotplugEvent::of_search(Err(error)) == HotplugEvent::Left <==> error
            == SwitchError::SwitchNotFound,
{
}

} // verus!
