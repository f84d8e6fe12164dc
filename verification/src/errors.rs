//! The error taxonomy surfaced by this crate.
//!
//! Errors from the collection backend or from the packet decoder are wrapped
//! into these kinds, never exposed as raw backend codes, so that callers can
//! write backend-independent handling logic.

use vstd::prelude::*;
use crate::TracerState;

verus! {

/// Why a recoverable, per-item decode error was produced.
///
/// An item carrying one of these leaves the decoder able to resynchronise:
/// the block sequence may continue after the next synchronisation packet.
#[derive(Clone, Copy, Debug, PartialEq, Eq, Structural)]
pub enum DecodeKind {
    /// A byte that starts no packet was met while looking for a
    /// synchronisation packet.
    Desync,
    /// A packet tag this decoder does not understand was met inside a
    /// synchronised region.
    UnknownPacket,
    /// The buffer ended in the middle of a packet.
    Truncated,
    /// The addressing context has no entry for the current instruction
    /// address, so control flow cannot be followed.
    NoMapping,
    /// The stream records that trace data was lost during collection.
    Overflow,
}

/// Why the decode of a whole buffer was abandoned.
#[derive(Clone, Copy, Debug, PartialEq, Eq, Structural)]
pub enum FatalKind {
    /// The buffer does not begin with a well-formed header.
    BadHeader,
    /// The header names an encoding variant this decoder does not support.
    UnsupportedVariant,
}

/// What the backend rejected while configuring a collector.
#[derive(Clone, Copy, Debug, PartialEq, Eq, Structural)]
pub enum ConfigKind {
    /// A collector cannot be armed with a zero-sized capture buffer.
    ZeroSizedBuffer,
}

/// An error surfaced by the tracing or decoding layer.
#[derive(Clone, Copy, Debug, PartialEq, Eq, Structural)]
pub enum HWTracerError {
    /// The operation is not permitted in the tracer's current state; the
    /// payload is the state the tracer was (and remains) in.
    TracerState(TracerState),
    /// The machine offers no hardware tracing facility.
    NoHardwareSupport,
    /// The caller lacks the privilege to open the trace source.
    PermissionDenied,
    /// The backend rejected the requested collector configuration.
    BackendConfiguration(ConfigKind),
    /// The capture buffer filled before collection was stopped.
    BufferOverflow,
    /// A recoverable decode error, confined to one position of the stream.
    Decode(DecodeKind),
    /// A decode error that terminates the block sequence immediately.
    Fatal(FatalKind),
}

/// Environment errors are fatal for one tracer instance: retrying without
/// changing the environment (privilege, hardware, configuration) cannot help.
pub open spec fn is_environment_error(e: HWTracerError) -> bool {
    match e {
        HWTracerError::NoHardwareSupport => true,
        HWTracerError::PermissionDenied => true,
        HWTracerError::BackendConfiguration(_) => true,
        _ => false,
    }
}

} // verus!
