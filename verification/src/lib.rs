//! Capture and decoding of hardware-generated instruction traces.
//!
//! A per-thread collector is started and stopped under a two-state automaton;
//! a successful stop hands back an owned [`Trace`], and a trace decodes on
//! demand into the ordered sequence of basic [`Block`]s the processor
//! executed, reporting precise, recoverable errors per block rather than
//! abandoning the whole trace.

use vstd::prelude::*;

pub mod backends;
pub mod decode;
pub mod errors;
pub mod trace;

pub use errors::HWTracerError;
pub use trace::{BlockIterator, Trace};

verus! {

use crate::decode::ImageEntry;
use crate::errors::is_environment_error;

/// Information about a basic block: a maximal straight-line instruction
/// sequence, addressed by its first and last instruction virtual addresses.
#[derive(Debug, Eq, PartialEq, Structural, Clone, Copy)]
pub struct Block {
    /// Virtual address of the first instruction in this block.
    pub first_instr: u64,
    /// Virtual address of the last instruction in this block.
    pub last_instr: u64,
}

impl Block {
    /// Creates a new basic block from its first and last instruction
    /// addresses.
    pub fn new(first_instr: u64, last_instr: u64) -> (b: Self)
        ensures
            b.first_instr == first_instr,
            b.last_instr == last_instr,
    {
        Self { first_instr, last_instr }
    }

    /// Returns the virtual address of the first instruction in this block.
    pub fn first_instr(&self) -> (a: u64)
        ensures
            a == self.first_instr,
    {
        self.first_instr
    }

    /// Returns the virtual address of the last instruction in this block.
    pub fn last_instr(&self) -> (a: u64)
        ensures
            a == self.last_instr,
    {
        self.last_instr
    }
}

/// Keeps track of the internal state of a tracer: every tracer is either
/// `Stopped` (the initial state) or `Started`, and no other state exists.
#[derive(PartialEq, Eq, Debug, Clone, Copy, Structural)]
pub enum TracerState {
    Stopped,
    Started,
}

impl TracerState {
    /// The lower-case name of the state, as a diagnostic report prints it.
    pub fn name(&self) -> (s: &'static str)
        ensures
            *self is Started ==> s@ == "started"@,
            *self is Stopped ==> s@ == "stopped"@,
    {
        match self {
            TracerState::Started => "started",
            TracerState::Stopped => "stopped",
        }
    }

    /// Returns the error corresponding with the `TracerState`.
    pub fn as_error(self) -> (e: HWTracerError)
        ensures
            e == HWTracerError::TracerState(self),
    {
        HWTracerError::TracerState(self)
    }
}

/// The interface offered by all tracer types: a factory that hands out
/// per-thread collectors.  Which backend stands behind the factory is fixed
/// when the factory is constructed.
pub trait Tracer {
    /// The per-thread collector type this tracer produces.
    type Thread: ThreadTracer;

    /// Return a collector for tracing the current thread.  A fresh collector
    /// always starts out `Stopped`.
    fn thread_tracer(&self) -> (t: Self::Thread)
        ensures
            t.state() == TracerState::Stopped,
    ;
}

/// A per-thread collector: it arms and disarms one thread's trace source
/// under a two-state automaton, and on a successful stop drains the captured
/// bytes into an owned [`Trace`].
pub trait ThreadTracer: Sized {
    /// The collector's current automaton state.
    spec fn state(&self) -> TracerState;

    /// Model of the capture a stop would now drain: the delivered bytes, the
    /// addressing context handed to the trace, and whether the collection
    /// buffer overflowed.
    spec fn capture(&self) -> (Seq<u8>, Seq<ImageEntry>, bool);

    /// Start recording a trace.
    ///
    /// Tracing continues until `stop_tracing` is called.  Starting an
    /// already-started collector fails with `TracerState(Started)` and does
    /// not alter the in-flight collection; starting a stopped one either
    /// succeeds, moving the automaton to `Started`, or fails with an
    /// environment error and leaves the collector exactly as it was.
    fn start_tracing(&mut self) -> (r: Result<(), HWTracerError>)
        ensures
            old(self).state() == TracerState::Started ==> {
                &&& r == Err::<(), HWTracerError>(HWTracerError::TracerState(TracerState::Started))
                &&& *final(self) == *old(self)
            },
            old(self).state() == TracerState::Stopped ==> (match r {
                Ok(()) => final(self).state() == TracerState::Started
                    && final(self).capture() == old(self).capture(),
                Err(e) => *final(self) == *old(self) && is_environment_error(e),
            }),
    ;

    /// Turns off the tracer.
    ///
    /// `start_tracing` must have been called prior: stopping a stopped
    /// collector fails with `TracerState(Stopped)` and changes nothing.
    /// Stopping a started one always moves the automaton back to `Stopped`
    /// (the trace source is released either way); on success it returns a
    /// complete, self-consistent trace holding exactly the modelled capture.
    fn stop_tracing(&mut self) -> (r: Result<Trace, HWTracerError>)
        ensures
            old(self).state() == TracerState::Stopped ==> {
                &&& r == Err::<Trace, HWTracerError>(HWTracerError::TracerState(TracerState::Stopped))
                &&& *final(self) == *old(self)
            },
            old(self).state() == TracerState::Started ==> {
                &&& final(self).state() == TracerState::Stopped
                &&& (match r {
                    Ok(t) => t.bytes_spec() == old(self).capture().0
                        && t.image_spec() == old(self).capture().1
                        && t.overflowed_spec() == old(self).capture().2,
                    Err(e) => is_environment_error(e),
                })
            },
    ;
}

} // verus!
