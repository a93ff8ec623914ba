//! The error taxonomy of the fork-and-collect operation.
//!
//! Every failure path of a single invocation is terminal and falls in exactly
//! one of these categories, so none is ambiguous with another. Four are
//! systems-level faults; `ComputationError` alone reports that the supplied
//! computation itself failed, with its description carried across the process
//! boundary as UTF-8 text.

use vstd::prelude::*;

verus! {

/// Mathematical model of an operation error.
pub ghost enum ErrorModel {
    /// The channel could not be created; no child was spawned.
    ChannelSetupFailed,
    /// Reading from the channel failed, with the underlying error code.
    IoError(int),
    /// The child exited with the given nonzero status, so the payload cannot
    /// be trusted.
    ChildProcessFailed(int),
    /// The bytes drained from the channel do not decode as an outcome.
    PayloadCorrupted,
    /// The computation itself failed; the bytes are the UTF-8 text of its
    /// error description.
    ComputationError(Seq<u8>),
}

/// An error of the fork-and-collect operation.
#[derive(Debug)]
pub enum ForkMapError {
    /// The channel could not be created; no child was spawned.
    ChannelSetupFailed,
    /// Reading from the channel failed, with the underlying error code.
    IoError(i32),
    /// The child exited with the given nonzero status, so the payload cannot
    /// be trusted.
    ChildProcessFailed(i32),
    /// The bytes drained from the channel do not decode as an outcome.
    PayloadCorrupted,
    /// The computation itself failed; the bytes are the UTF-8 text of its
    /// error description.
    ComputationError(Vec<u8>),
}

impl View for ForkMapError {
    type V = ErrorModel;

    open spec fn view(&self) -> ErrorModel {
        match self {
            ForkMapError::ChannelSetupFailed => ErrorModel::ChannelSetupFailed,
            ForkMapError::IoError(code) => ErrorModel::IoError(*code as int),
            ForkMapError::ChildProcessFailed(status) => ErrorModel::ChildProcessFailed(
                *status as int,
            ),
            ForkMapError::PayloadCorrupted => ErrorModel::PayloadCorrupted,
            ForkMapError::ComputationError(description) => ErrorModel::ComputationError(
                description@,
            ),
        }
    }
}

impl ForkMapError {
    /// True exactly on the one variant that reports ordinary failure of the
    /// supplied computation rather than a systems-level fault.
    pub fn is_computation_error(&self) -> (r: bool)
        ensures
            r == (self@ is ComputationError),
    {
        match self {
            ForkMapError::ComputationError(_) => true,
            _ => false,
        }
    }
}

} // verus!
