use stadia_bridge::bridge::{
    classify_read_failure, AcquireOutcome, AcquireStep, BridgeState, Controller, NextOperation,
    ReadOutcome, ReadStep, ERROR_CODE_DEVICE_NOT_CONNECTED, REACQUIRE_BACKOFF_SECONDS,
};
use stadia_bridge::Error;

fn raw_report(dpad: u8, b0: u8, b1: u8) -> Vec<u8> {
    vec![0x03, dpad, b0, b1, 0x80, 0x80, 0x80, 0x80, 0, 0]
}

fn connected_controller() -> Controller {
    let mut c = Controller::new();
    assert_eq!(c.on_acquire_outcome(AcquireOutcome::Opened), AcquireStep::Proceed);
    c
}

#[test]
fn new_controller_is_disconnected() {
    let c = Controller::new();
    assert_eq!(c.state, BridgeState::Disconnected);
    assert_eq!(c.next_operation(), NextOperation::Acquire);
}

#[test]
fn acquisition_outcomes() {
    let mut c = Controller::new();
    assert_eq!(c.on_acquire_outcome(AcquireOutcome::NotFound), AcquireStep::SleepThenRetry);
    assert_eq!(c.state, BridgeState::Disconnected);
    let mut c = Controller::new();
    assert_eq!(c.on_acquire_outcome(AcquireOutcome::Failed), AcquireStep::Fatal(Error::IoFailure));
    assert_eq!(c.state, BridgeState::Disconnected);
    let mut c = Controller::new();
    assert_eq!(c.on_acquire_outcome(AcquireOutcome::Opened), AcquireStep::Proceed);
    assert_eq!(c.state, BridgeState::Connected);
    assert_eq!(c.next_operation(), NextOperation::Read);
}

#[test]
fn read_data_delivers_decoded_report() {
    let mut c = connected_controller();
    let step = c.on_read_outcome(ReadOutcome::Data(raw_report(0, 0x01, 0x40)));
    match step {
        ReadStep::Deliver(rep) => {
            assert!(rep.gamepad.button_a);
            assert!(rep.gamepad.dpad_up);
            assert!(rep.is_assistant_pressed);
        }
        other => panic!("expected a delivered report, got {other:?}"),
    }
    assert_eq!(c.state, BridgeState::Connected);
}

#[test]
fn read_data_with_leading_zero_byte_is_stripped() {
    let mut c = connected_controller();
    let mut bytes = vec![0u8];
    bytes.extend_from_slice(&raw_report(2, 0, 0));
    let step = c.on_read_outcome(ReadOutcome::Data(bytes));
    match step {
        ReadStep::Deliver(rep) => assert!(rep.gamepad.dpad_right),
        other => panic!("expected a delivered report, got {other:?}"),
    }
}

#[test]
fn read_malformed_data_is_fatal() {
    let mut c = connected_controller();
    let step = c.on_read_outcome(ReadOutcome::Data(vec![0x07, 0, 0, 0, 0, 0, 0, 0, 0, 0]));
    assert_eq!(step, ReadStep::Fatal(Error::MalformedReport));
}

#[test]
fn read_failure_is_fatal() {
    let mut c = connected_controller();
    let step = c.on_read_outcome(ReadOutcome::Failed);
    assert_eq!(step, ReadStep::Fatal(Error::IoFailure));
}

#[test]
fn disconnect_mid_read_reacquires_without_error() {
    // The device vanishes mid-read: the bridge silently goes back to
    // acquisition, retries while the device is absent, and succeeds once
    // the device path reappears.
    let mut c = connected_controller();
    let step = c.on_read_outcome(ReadOutcome::Disconnected);
    assert_eq!(step, ReadStep::Retry);
    assert_eq!(c.state, BridgeState::Disconnected);
    assert_eq!(c.next_operation(), NextOperation::Acquire);

    assert_eq!(c.on_acquire_outcome(AcquireOutcome::NotFound), AcquireStep::SleepThenRetry);
    assert_eq!(c.next_operation(), NextOperation::Acquire);

    assert_eq!(c.on_acquire_outcome(AcquireOutcome::Opened), AcquireStep::Proceed);
    assert_eq!(c.next_operation(), NextOperation::Read);
    let step = c.on_read_outcome(ReadOutcome::Data(raw_report(8, 0, 0)));
    assert!(matches!(step, ReadStep::Deliver(_)));
}

#[test]
fn vibrate_while_connected_writes_frame() {
    let c = connected_controller();
    assert_eq!(c.vibrate(200, 50), Some(vec![0x05, 200, 200, 50, 50]));
}

#[test]
fn vibrate_while_disconnected_is_dropped() {
    let c = Controller::new();
    assert_eq!(c.vibrate(200, 50), None);
}

#[test]
fn device_not_connected_code_is_the_disconnect_sentinel() {
    assert_eq!(ERROR_CODE_DEVICE_NOT_CONNECTED, 1167);
    assert!(matches!(
        classify_read_failure(ERROR_CODE_DEVICE_NOT_CONNECTED),
        ReadOutcome::Disconnected
    ));
}

#[test]
fn other_read_failure_codes_are_fatal() {
    for code in [0u32, 5, 1166, 1168, u32::MAX] {
        assert!(matches!(classify_read_failure(code), ReadOutcome::Failed));
    }
}

#[test]
fn reacquire_backoff_is_one_second() {
    assert_eq!(REACQUIRE_BACKOFF_SECONDS, 1);
}
