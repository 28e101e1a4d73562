//! Bridges a Stadia controller to a virtual Xbox 360 controller.
//!
//! This library holds the verified core of the bridge: the report codec
//! that translates the controller's bit-packed input reports into a
//! normalized gamepad state and encodes vibration feedback frames, the
//! device-locator matching rules, the button edge tracker that turns
//! level signals into press/release commands, and the connection state
//! machine that decides how the bridge reacts to acquisition and read
//! outcomes. The surrounding asynchronous I/O (device enumeration,
//! overlapped reads and writes, the event loop) is unverified glue that
//! feeds these functions plain values.

pub mod bridge;
pub mod codec;
pub mod edge;
pub mod locator;

use vstd::prelude::*;

verus! {

/// The error taxonomy of the bridge.
///
/// `DeviceNotFound` and `DeviceDisconnected` are recoverable and are
/// absorbed by the connection state machine; the rest are fatal.
#[derive(Clone, Copy, Debug, PartialEq, Eq, Structural)]
pub enum Error {
    /// No device with the expected vendor and product identity is present.
    DeviceNotFound,
    /// The device vanished while a session was open.
    DeviceDisconnected,
    /// An input report did not match the expected layout.
    MalformedReport,
    /// An operating-system I/O operation failed for any other reason.
    IoFailure,
    /// A button-edge command could not be started.
    CommandSpawnFailure,
}

impl Error {
    /// The propagation policy: an absent or disconnected device is
    /// recoverable and is absorbed by the connection state machine; every
    /// other error bubbles up and terminates the process.
    pub fn is_recoverable(&self) -> (r: bool)
        ensures
            r <==> (self is DeviceNotFound || self is DeviceDisconnected),
    {
        match self {
            Error::DeviceNotFound => true,
            Error::DeviceDisconnected => true,
            Error::MalformedReport => false,
            Error::IoFailure => false,
            Error::CommandSpawnFailure => false,
        }
    }
}

} // verus!
