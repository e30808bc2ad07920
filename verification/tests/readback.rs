use gpu_reduce::bytes::words_from_bytes;
use gpu_reduce::error::PipelineError;
use gpu_reduce::readback::{GateAction, GateState, MapOutcome, ReadbackGate};

/// Drive one full readback of `staging` through the protocol, performing each
/// requested step, and return the captured bytes.
fn run_readback(staging: &[u8]) -> Vec<u8> {
    let mut gate = ReadbackGate::begin();
    assert_eq!(gate.next_action(), GateAction::PollDevice);
    gate.work_polled();
    assert_eq!(gate.next_action(), GateAction::RequestMap);
    gate.map_requested();
    assert_eq!(gate.next_action(), GateAction::PollDevice);
    gate.callbacks_polled();
    assert_eq!(gate.next_action(), GateAction::AwaitSignal);
    gate.signal_received(MapOutcome::Granted);
    assert_eq!(gate.next_action(), GateAction::CaptureView);
    gate.capture(staging.to_vec());
    assert_eq!(gate.next_action(), GateAction::ReleaseView);
    gate.view_released();
    assert_eq!(gate.next_action(), GateAction::Finish);
    gate.take_bytes()
}

#[test]
fn successful_readback_returns_staging_bytes() {
    let staging = vec![1u8, 0, 0, 0, 0x20, 0x08, 0, 0];
    let bytes = run_readback(&staging);
    assert_eq!(bytes, staging);
}

#[test]
fn rereading_unchanged_staging_yields_identical_bytes() {
    let staging = vec![7u8, 0, 0, 0, 42, 1, 0, 0, 255, 255, 255, 255];
    let first = run_readback(&staging);
    let second = run_readback(&staging);
    assert_eq!(first, second);
}

#[test]
fn denied_signal_fails_as_map_denied() {
    let mut gate = ReadbackGate::begin();
    gate.work_polled();
    gate.map_requested();
    gate.callbacks_polled();
    gate.signal_received(MapOutcome::Denied);
    assert_eq!(gate.state, GateState::Failed(PipelineError::MapDenied));
    assert_eq!(gate.next_action(), GateAction::Abort(PipelineError::MapDenied));
}

#[test]
fn lost_signal_fails_as_device_lost() {
    let mut gate = ReadbackGate::begin();
    gate.work_polled();
    gate.map_requested();
    gate.callbacks_polled();
    gate.signal_received(MapOutcome::Lost);
    assert_eq!(gate.state, GateState::Failed(PipelineError::DeviceLost));
    assert_eq!(gate.next_action(), GateAction::Abort(PipelineError::DeviceLost));
}

#[test]
fn protocol_passes_states_in_order() {
    let mut gate = ReadbackGate::begin();
    assert_eq!(gate.state, GateState::Submitted);
    gate.work_polled();
    assert_eq!(gate.state, GateState::WorkComplete);
    gate.map_requested();
    assert_eq!(gate.state, GateState::MapRequested);
    gate.callbacks_polled();
    assert_eq!(gate.state, GateState::SignalWait);
    gate.signal_received(MapOutcome::Granted);
    assert_eq!(gate.state, GateState::MappedReady);
    gate.capture(vec![9, 9, 9, 9]);
    assert_eq!(gate.state, GateState::ViewCaptured);
    gate.view_released();
    assert_eq!(gate.state, GateState::Complete);
}

#[test]
fn decode_little_endian_words() {
    let bytes = vec![1u8, 0, 0, 0, 0x20, 0x08, 0, 0, 0xff, 0xff, 0xff, 0xff];
    assert_eq!(words_from_bytes(&bytes), vec![1, 2080, u32::MAX]);
}

#[test]
fn decode_empty_buffer() {
    let bytes: Vec<u8> = Vec::new();
    assert_eq!(words_from_bytes(&bytes), Vec::<u32>::new());
}

#[test]
fn decode_is_deterministic_in_content() {
    let bytes = vec![4u8, 3, 2, 1, 8, 7, 6, 5];
    assert_eq!(words_from_bytes(&bytes), words_from_bytes(&bytes.clone()));
}
