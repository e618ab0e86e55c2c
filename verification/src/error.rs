//! The taxonomy of failures. Every failure is terminal: nothing here is
//! retried or recovered from.

use vstd::prelude::*;
use crate::channel::ChannelError;
use crate::command::Command;
use crate::decoder::DecodeError;
use crate::validator::TopologyMismatch;

verus! {

/// The device or port could not be found.
#[derive(Clone, Copy, Debug, PartialEq, Eq, Structural)]
pub enum DiscoveryError {
    /// The enumeration of attached devices is empty.
    NoDeviceFound,
    /// No attached device has the wanted identity, or it could not be opened.
    DeviceNotFound,
    /// The serial port does not exist or could not be opened.
    PortUnavailable,
}

/// The device or port was found and could not be made ready.
#[derive(Clone, Copy, Debug, PartialEq, Eq, Structural)]
pub enum SessionError {
    /// The device reset failed.
    Reset,
    /// Automatic detachment of the kernel driver could not be enabled.
    AutoDetach,
    /// Whether a kernel driver is active could not be queried.
    KernelDriverQuery,
    /// The configuration could not be selected, or not be read back.
    Configuration,
    /// After selection the device reports another configuration as active.
    ConfigurationMismatch { active: u8 },
    /// The interface could not be claimed.
    Claim,
    /// The device's descriptors could not be read.
    DescriptorUnavailable,
    /// The device does not have the expected shape.
    TopologyMismatch(TopologyMismatch),
    /// The line settings could not be applied as a whole.
    LineConfiguration,
    /// The time bound of the port's operations could not be set.
    TimeoutConfiguration,
}

/// Any failure of a run, by the part that failed.
#[derive(Clone, Copy, Debug, PartialEq, Eq, Structural)]
pub enum ProbeError {
    /// The device or port was not found.
    Discovery(DiscoveryError),
    /// The device or port could not be made ready.
    Session(SessionError),
    /// The exchange of `command` failed on the link.
    Channel { command: Command, error: ChannelError },
    /// The response arrived and was not accepted.
    Decode(DecodeError),
}

} // verus!
