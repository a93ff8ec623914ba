//! Verified core of a fork-and-collect primitive: a child process runs a
//! computation, encodes its outcome into a one-shot byte payload, and writes it
//! through a unidirectional channel; the parent drains the channel in fixed-size
//! chunks, reaps the child, and decodes the payload.
//!
//! The process-level plumbing (fork, pipe, wait) is operating-system work and
//! lives outside this crate; everything that decides or computes — the payload
//! codec, the chunked drain state machine, and the parent's interpretation of
//! what it read and of the child's exit status — is verified here.

pub mod codec;
pub mod drain;
pub mod emit;
pub mod error;
pub mod outcome;
pub mod reap;
