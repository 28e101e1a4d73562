//! Controller bridge: the connection state machine. The bridge is either
//! disconnected or connected to a device session; it decides how each
//! acquisition or read outcome changes that state and what the
//! surrounding I/O layer must do next. The I/O itself — enumerating and
//! opening the device, the asynchronous read, the backoff sleep, the
//! vibration write — happens outside and reports back as plain outcomes.

use crate::codec::{spec_decode, spec_report_well_formed, spec_vibration_frame, encode_vibration, Report};
use crate::Error;
use vstd::prelude::*;
use vstd::slice::slice_subrange;

verus! {

/// The bridge's connection state.
#[derive(Clone, Copy, Debug, PartialEq, Eq, Structural)]
pub enum BridgeState {
    /// No device session is open; the bridge retries acquisition.
    Disconnected,
    /// A device session is open and reads flow through it.
    Connected,
}

/// The next operation the I/O layer should perform to make progress
/// toward the next report.
#[derive(Clone, Copy, Debug, PartialEq, Eq, Structural)]
pub enum NextOperation {
    /// Attempt to locate and open the device.
    Acquire,
    /// Read one raw report from the open session.
    Read,
}

/// What one acquisition attempt reported.
#[derive(Clone, Copy, Debug, PartialEq, Eq, Structural)]
pub enum AcquireOutcome {
    /// A device was found and a session was opened.
    Opened,
    /// No device with the expected identity is present.
    NotFound,
    /// The operating system failed the enumeration or the open.
    Failed,
}

/// What one read from the session reported.
#[derive(Debug)]
pub enum ReadOutcome {
    /// The read completed with these bytes.
    Data(Vec<u8>),
    /// The device is no longer connected; the session is dead.
    Disconnected,
    /// The operating system failed the read for any other reason.
    Failed,
}

/// What the bridge decided after an acquisition attempt.
#[derive(Clone, Copy, Debug, PartialEq, Eq, Structural)]
pub enum AcquireStep {
    /// The session is open; proceed to reading.
    Proceed,
    /// No device is present; sleep for the fixed backoff, then retry.
    SleepThenRetry,
    /// A fatal error to propagate.
    Fatal(Error),
}

/// What the bridge decided after a read.
#[derive(Clone, Copy, Debug, PartialEq, Eq, Structural)]
pub enum ReadStep {
    /// A report was decoded; hand it to the caller.
    Deliver(Report),
    /// No report this time; ask the bridge for the next operation.
    Retry,
    /// A fatal error to propagate.
    Fatal(Error),
}

/// The raw report body within the bytes a read returned: some devices
/// prepend a zero byte, which is stripped.
pub open spec fn spec_report_body(bytes: Seq<u8>) -> Seq<u8> {
    if bytes[0] == 0 {
        bytes.subrange(1, bytes.len() as int)
    } else {
        bytes
    }
}

/// The fixed backoff, in seconds, between acquisition attempts while the
/// device is absent: the wait a `SleepThenRetry` decision asks for.
pub const REACQUIRE_BACKOFF_SECONDS: u64 = 1;

/// The operating-system error code that reports the device as no longer
/// connected during a read.
pub const ERROR_CODE_DEVICE_NOT_CONNECTED: u32 = 1167;

/// The bridge's state after one acquisition attempt from the
/// disconnected state: only an opened session connects it.
pub open spec fn spec_state_after_acquire(outcome: AcquireOutcome) -> BridgeState {
    match outcome {
        AcquireOutcome::Opened => BridgeState::Connected,
        AcquireOutcome::NotFound => BridgeState::Disconnected,
        AcquireOutcome::Failed => BridgeState::Disconnected,
    }
}

/// The bridge's decision after one acquisition attempt from the
/// disconnected state.
pub open spec fn spec_acquire_step(outcome: AcquireOutcome) -> AcquireStep {
    match outcome {
        AcquireOutcome::Opened => AcquireStep::Proceed,
        AcquireOutcome::NotFound => AcquireStep::SleepThenRetry,
        AcquireOutcome::Failed => AcquireStep::Fatal(Error::IoFailure),
    }
}

/// The bridge's state after one read from the connected state: only a
/// disconnect sentinel tears the session down.
pub open spec fn spec_state_after_read(outcome: ReadOutcome) -> BridgeState {
    match outcome {
        ReadOutcome::Data(_) => BridgeState::Connected,
        ReadOutcome::Disconnected => BridgeState::Disconnected,
        ReadOutcome::Failed => BridgeState::Connected,
    }
}

/// The bridge's decision after one read from the connected state: data
/// is decoded and delivered (a malformed report is fatal), a disconnect
/// is silently retried, and any other failure is fatal.
pub open spec fn spec_read_step(outcome: ReadOutcome) -> ReadStep {
    match outcome {
        ReadOutcome::Data(bytes) => match spec_decode(spec_report_body(bytes@)) {
            Ok(rep) => ReadStep::Deliver(rep),
            Err(_) => ReadStep::Fatal(Error::MalformedReport),
        },
        ReadOutcome::Disconnected => ReadStep::Retry,
        ReadOutcome::Failed => ReadStep::Fatal(Error::IoFailure),
    }
}

/// A stateful handle to the physical controller: lazily acquires a device
/// session and absorbs disconnects by reacquiring.
#[derive(Clone, Copy, Debug, PartialEq, Eq, Structural)]
pub struct Controller {
    pub state: BridgeState,
}

impl Controller {
    /// Creates a new bridge which is not connected to any device.
    pub fn new() -> (r: Self)
        ensures
            r.state is Disconnected,
    {
        Controller { state: BridgeState::Disconnected }
    }

    /// The operation the I/O layer should perform next: acquire while
    /// disconnected, read while connected.
    pub fn next_operation(&self) -> (r: NextOperation)
        ensures
            r is Acquire <==> self.state is Disconnected,
            r is Read <==> self.state is Connected,
    {
        match self.state {
            BridgeState::Disconnected => NextOperation::Acquire,
            BridgeState::Connected => NextOperation::Read,
        }
    }

    /// Reacts to an acquisition attempt: an opened session connects the
    /// bridge; an absent device keeps it disconnected and asks for the
    /// fixed backoff before the next attempt; an operating-system failure
    /// is fatal.
    pub fn on_acquire_outcome(&mut self, outcome: AcquireOutcome) -> (r: AcquireStep)
        requires
            old(self).state is Disconnected,
        ensures
            final(self).state == spec_state_after_acquire(outcome),
            r == spec_acquire_step(outcome),
    {
        match outcome {
            AcquireOutcome::Opened => {
                self.state = BridgeState::Connected;
                AcquireStep::Proceed
            },
            AcquireOutcome::NotFound => AcquireStep::SleepThenRetry,
            AcquireOutcome::Failed => AcquireStep::Fatal(Error::IoFailure),
        }
    }

    /// Reacts to a read: data is decoded and delivered, with a decode
    /// failure fatal; a device disconnect silently returns the bridge to
    /// the disconnected state so the next operation reacquires; any other
    /// failure is fatal.
    pub fn on_read_outcome(&mut self, outcome: ReadOutcome) -> (r: ReadStep)
        requires
            old(self).state is Connected,
            outcome matches ReadOutcome::Data(bytes) ==> bytes@.len() >= 1,
        ensures
            final(self).state == spec_state_after_read(outcome),
            r == spec_read_step(outcome),
    {
        match outcome {
            ReadOutcome::Data(bytes) => {
                let body: &[u8] = if bytes[0] == 0 {
                    slice_subrange(bytes.as_slice(), 1, bytes.len())
                } else {
                    bytes.as_slice()
                };
                match Report::decode(body) {
                    Ok(rep) => ReadStep::Deliver(rep),
                    Err(_) => ReadStep::Fatal(Error::MalformedReport),
                }
            },
            ReadOutcome::Disconnected => {
                self.state = BridgeState::Disconnected;
                ReadStep::Retry
            },
            ReadOutcome::Failed => ReadStep::Fatal(Error::IoFailure),
        }
    }

    /// The vibration feedback decision: while connected, the five-byte
    /// feedback frame to write to the device; while disconnected, nothing
    /// — the request is dropped without error.
    pub fn vibrate(&self, large_motor: u8, small_motor: u8) -> (r: Option<Vec<u8>>)
        ensures
            self.state is Connected ==> (r matches Some(frame) && frame@ == spec_vibration_frame(
                large_motor,
                small_motor,
            )),
            self.state is Disconnected ==> r is None,
    {
        match self.state {
            BridgeState::Connected => Some(encode_vibration(large_motor, small_motor)),
            BridgeState::Disconnected => None,
        }
    }
}

/// Classifies a failed read by its operating-system error code: the
/// device-no-longer-connected code is the disconnect sentinel — the
/// session is dead and the bridge silently reacquires — and any other
/// code is a fatal I/O failure.
pub fn classify_read_failure(os_error_code: u32) -> (r: ReadOutcome)
    ensures
        os_error_code == ERROR_CODE_DEVICE_NOT_CONNECTED <==> r is Disconnected,
        os_error_code != ERROR_CODE_DEVICE_NOT_CONNECTED <==> r is Failed,
{
    if os_error_code == ERROR_CODE_DEVICE_NOT_CONNECTED {
        ReadOutcome::Disconnected
    } else {
        ReadOutcome::Failed
    }
}

/// The disconnect-recovery law, stated end to end at the decision level:
/// from the disconnected state — in particular, right after a disconnect
/// sentinel, which itself decides a silent retry — any number of rounds
/// in which the device is absent decide only the fixed backoff and leave
/// the bridge disconnected, none an error; the round in which a session
/// is opened connects the bridge; and a read whose body is a well-formed
/// report is then delivered.
pub proof fn lemma_disconnect_recovery(absent: Seq<AcquireOutcome>, read: ReadOutcome)
    requires
        forall|i: int| 0 <= i < absent.len() ==> absent[i] is NotFound,
        read matches ReadOutcome::Data(bytes) && spec_report_well_formed(spec_report_body(bytes@)),
    ensures
        spec_read_step(ReadOutcome::Disconnected) is Retry,
        spec_state_after_read(ReadOutcome::Disconnected) is Disconnected,
        forall|i: int|
            0 <= i < absent.len() ==> #[trigger] spec_acquire_step(absent[i]) is SleepThenRetry
                && spec_state_after_acquire(absent[i]) is Disconnected,
        spec_state_after_acquire(AcquireOutcome::Opened) is Connected,
        spec_read_step(read) is Deliver,
{
}

} // verus!
