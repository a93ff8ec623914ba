//! End-to-end scenarios over the verified stages: the child-side packaging,
//! the chunked drain, and the parent-side reap, with real serde_json
//! serialization of the success value at both ends.

use fork_map::codec::{child_payload, ComputationReport};
use fork_map::drain::{Drain, CHUNK_SIZE};
use fork_map::error::ForkMapError;
use fork_map::reap::reap_outcome;

/// Run the wire bytes through the drain exactly as the parent's read loop
/// would: full chunks of `requested` bytes, then the short (possibly empty)
/// final chunk.
fn drain_in_chunks(wire: &[u8], requested: usize) -> Vec<u8> {
    let mut d = Drain::new();
    let mut offset: usize = 0;
    while !d.is_complete() {
        let end: usize = usize::min(offset + requested, wire.len());
        d.push_chunk(&wire[offset..end].to_vec(), requested);
        offset = end;
    }
    d.into_bytes()
}

#[test]
fn computation_returning_42_yields_42() {
    // The computation `|| Ok(21 * 2)`, as the child runs it.
    let computation = || -> Result<i32, String> { Ok(21 * 2) };
    let report = match computation() {
        Ok(v) => ComputationReport::Value(serde_json::to_vec(&v).unwrap()),
        Err(e) => ComputationReport::Failed(e.into_bytes()),
    };
    let wire = child_payload(report);
    let received = drain_in_chunks(&wire, CHUNK_SIZE);
    let payload = reap_outcome(Ok(received), 0).unwrap();
    let value: i32 = serde_json::from_slice(&payload).unwrap();
    assert_eq!(value, 42);
}

#[test]
fn computation_failing_with_boom_yields_boom() {
    // The computation `|| Err("boom")`, as the child runs it.
    let computation = || -> Result<i32, String> { Err("boom".to_string()) };
    let report = match computation() {
        Ok(v) => ComputationReport::Value(serde_json::to_vec(&v).unwrap()),
        Err(e) => ComputationReport::Failed(e.into_bytes()),
    };
    let wire = child_payload(report);
    let received = drain_in_chunks(&wire, CHUNK_SIZE);
    let e = reap_outcome(Ok(received), 0).unwrap_err();
    match e {
        ForkMapError::ComputationError(d) => {
            let description = String::from_utf8(d).unwrap();
            assert!(description.contains("boom"));
        }
        other => panic!("expected a computation error, got {:?}", other),
    }
}

#[test]
fn large_success_value_crosses_intact() {
    // A success value whose serialization spans several chunks.
    let big: Vec<u64> = (0..4096u64).collect();
    let serialized = serde_json::to_vec(&big).unwrap();
    assert!(serialized.len() > CHUNK_SIZE);
    let wire = child_payload(ComputationReport::Value(serialized));
    let received = drain_in_chunks(&wire, CHUNK_SIZE);
    let payload = reap_outcome(Ok(received), 0).unwrap();
    let value: Vec<u64> = serde_json::from_slice(&payload).unwrap();
    assert_eq!(value, big);
}

#[test]
fn abnormal_child_with_partial_payload_is_child_process_failed() {
    // A child that died mid-write: some bytes arrived, the status is
    // abnormal, and the parent must report the status, not a decode error.
    let wire = child_payload(ComputationReport::Value(vec![1u8; 10]));
    let partial = drain_in_chunks(&wire[..4], CHUNK_SIZE);
    let e = reap_outcome(Ok(partial), 11).unwrap_err();
    assert!(matches!(e, ForkMapError::ChildProcessFailed(11)));
}
