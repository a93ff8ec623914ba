use fork_map::codec::{child_payload, ComputationReport};
use fork_map::error::ForkMapError;
use fork_map::reap::{interpret_channel_setup, reap_outcome};

#[test]
fn clean_exit_and_success_payload_is_ok() {
    let payload = child_payload(ComputationReport::Value(vec![9u8, 9u8]));
    let r = reap_outcome(Ok(payload), 0);
    assert_eq!(r.unwrap(), vec![9u8, 9u8]);
}

#[test]
fn clean_exit_and_failure_payload_is_computation_error() {
    let payload = child_payload(ComputationReport::Failed(b"boom".to_vec()));
    let r = reap_outcome(Ok(payload), 0);
    let e = r.unwrap_err();
    assert!(e.is_computation_error());
    assert!(matches!(e, ForkMapError::ComputationError(d) if d == b"boom".to_vec()));
}

#[test]
fn nonzero_status_is_child_process_failed() {
    // Even a perfectly well-formed payload is discarded when the child did
    // not exit cleanly: this must not surface as a decode error.
    let payload = child_payload(ComputationReport::Value(vec![1u8]));
    let r = reap_outcome(Ok(payload), 139);
    assert!(matches!(r.unwrap_err(), ForkMapError::ChildProcessFailed(139)));
}

#[test]
fn nonzero_status_with_no_bytes_is_child_process_failed() {
    let r = reap_outcome(Ok(Vec::new()), 1);
    assert!(matches!(r.unwrap_err(), ForkMapError::ChildProcessFailed(1)));
}

#[test]
fn read_error_outranks_status() {
    // A failed read aborts the operation with the IO error, whatever the
    // child's exit status turned out to be.
    let r = reap_outcome(Err(5), 1);
    assert!(matches!(r.unwrap_err(), ForkMapError::IoError(5)));
}

#[test]
fn read_error_is_io_error() {
    let r = reap_outcome(Err(9), 0);
    assert!(matches!(r.unwrap_err(), ForkMapError::IoError(9)));
}

#[test]
fn unserializable_value_is_payload_corrupted() {
    let payload = child_payload(ComputationReport::Unserializable);
    let r = reap_outcome(Ok(payload), 0);
    assert!(matches!(r.unwrap_err(), ForkMapError::PayloadCorrupted));
}

#[test]
fn empty_stream_is_payload_corrupted() {
    let r = reap_outcome(Ok(Vec::new()), 0);
    assert!(matches!(r.unwrap_err(), ForkMapError::PayloadCorrupted));
}

#[test]
fn unknown_tag_is_payload_corrupted() {
    let r = reap_outcome(Ok(vec![7u8, 7u8]), 0);
    assert!(matches!(r.unwrap_err(), ForkMapError::PayloadCorrupted));
}

#[test]
fn channel_setup_success() {
    assert!(interpret_channel_setup(0).is_ok());
}

#[test]
fn channel_setup_failure() {
    let e = interpret_channel_setup(-1).unwrap_err();
    assert!(matches!(e, ForkMapError::ChannelSetupFailed));
    assert!(!e.is_computation_error());
}
