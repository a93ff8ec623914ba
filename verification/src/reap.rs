//! The parent's decisions: fail fast if the channel could not be created, and
//! after the drain and the wait, turn what was read and the child's exit
//! status into the operation's result.
//!
//! A read error aborts the operation with that error. For bytes that were
//! drained in full, the exit status is judged before they are decoded: a child
//! that did not terminate cleanly did not complete the protocol, so whatever
//! it wrote is discarded rather than decoded — which keeps an abnormal
//! termination from ever surfacing as a decode error. Only then may a decode
//! failure, and last the outcome itself, be reported.

use vstd::prelude::*;

use crate::codec::{decode_outcome, decoded, lemma_codec_round_trip, report_encoding, ReportModel};
use crate::error::{ErrorModel, ForkMapError};
use crate::outcome::{Outcome, OutcomeModel};

verus! {

/// The view of a drain result whose bytes and error code are plain values.
pub open spec fn read_view(read: Result<Vec<u8>, i32>) -> Result<Seq<u8>, int> {
    match read {
        Ok(bytes) => Ok(bytes@),
        Err(code) => Err(code as int),
    }
}

/// What the parent concludes from the drained bytes (or the read error) and
/// the child's exit status: the serialized success value, or the one error
/// that describes how the invocation failed.
pub open spec fn reaped(read: Result<Seq<u8>, int>, status: int) -> Result<Seq<u8>, ErrorModel> {
    match read {
        Err(code) => Err(ErrorModel::IoError(code)),
        Ok(bytes) => if status != 0 {
            Err(ErrorModel::ChildProcessFailed(status))
        } else {
            match decoded(bytes) {
                None => Err(ErrorModel::PayloadCorrupted),
                Some(OutcomeModel::Success(payload)) => Ok(payload),
                Some(OutcomeModel::Failure(description)) => Err(
                    ErrorModel::ComputationError(description),
                ),
            }
        },
    }
}

/// The parent's final stage: interpret the drain result and the child's exit
/// status, decode the payload, and surface the computation's outcome.
pub fn reap_outcome(read_result: Result<Vec<u8>, i32>, status: i32) -> (r: Result<
    Vec<u8>,
    ForkMapError,
>)
    ensures
        r is Ok <==> reaped(read_view(read_result), status as int) is Ok,
        r matches Ok(payload) ==> reaped(read_view(read_result), status as int) == Ok::<
            Seq<u8>,
            ErrorModel,
        >(payload@),
        r matches Err(e) ==> reaped(read_view(read_result), status as int) == Err::<
            Seq<u8>,
            ErrorModel,
        >(e@),
{
    match read_result {
        Err(code) => Err(ForkMapError::IoError(code)),
        Ok(bytes) => {
            if status != 0 {
                return Err(ForkMapError::ChildProcessFailed(status));
            }
            match decode_outcome(&bytes) {
                None => Err(ForkMapError::PayloadCorrupted),
                Some(Outcome::Success(payload)) => Ok(payload),
                Some(Outcome::Failure(description)) => Err(
                    ForkMapError::ComputationError(description),
                ),
            }
        },
    }
}

/// The channel-setup decision: a nonzero return from the channel-creation
/// call fails the operation before any child is spawned.
pub fn interpret_channel_setup(rc: i32) -> (r: Result<(), ForkMapError>)
    ensures
        rc == 0 <==> r is Ok,
        r matches Err(e) ==> e@ is ChannelSetupFailed,
{
    if rc == 0 {
        Ok(())
    } else {
        Err(ForkMapError::ChannelSetupFailed)
    }
}

/// A computation that succeeds is reported to the caller as success, with the
/// very value it produced: encoding in the child, a clean exit, and decoding
/// in the parent hand the serialized value through unchanged.
pub proof fn lemma_success_round_trip(payload: Seq<u8>)
    ensures
        reaped(Ok(report_encoding(ReportModel::Value(payload))), 0) == Ok::<Seq<u8>, ErrorModel>(
            payload,
        ),
{
    lemma_codec_round_trip(OutcomeModel::Success(payload));
}

/// A computation that fails is reported to the caller as a computation error
/// whose description is the very text the child recorded: the description
/// survives the process boundary unchanged.
pub proof fn lemma_failure_round_trip(description: Seq<u8>)
    ensures
        reaped(Ok(report_encoding(ReportModel::Failed(description))), 0) == Err::<
            Seq<u8>,
            ErrorModel,
        >(ErrorModel::ComputationError(description)),
{
    lemma_codec_round_trip(OutcomeModel::Failure(description));
}

/// A success value that would not serialize leaves the child writing nothing,
/// and an empty stream decodes as no outcome: the parent reports a corrupted
/// payload, never a made-up value.
pub proof fn lemma_unserializable_is_corrupted()
    ensures
        reaped(Ok(report_encoding(ReportModel::Unserializable)), 0) == Err::<Seq<u8>, ErrorModel>(
            ErrorModel::PayloadCorrupted,
        ),
{
}

/// A child that terminated abnormally is reported as exactly that, whatever
/// bytes — none, garbage, or even a well-formed frame — the parent drained
/// before the stream closed: never as a decode error, and never as success.
pub proof fn lemma_abnormal_exit(bytes: Seq<u8>, status: int)
    requires
        status != 0,
    ensures
        reaped(Ok(bytes), status) == Err::<Seq<u8>, ErrorModel>(
            ErrorModel::ChildProcessFailed(status),
        ),
{
}

} // verus!
