//! Collection backends.
//!
//! A backend is chosen at factory-construction time from a capability probe
//! of the platform.  The backend here collects from an in-memory capture: a
//! raw buffer and addressing context recorded ahead of time, delivered
//! through a bounded collection buffer exactly as a kernel trace source
//! would drain it.  It drives the full collection automaton and is what a
//! caller gets where no hardware trace facility is usable.

use vstd::prelude::*;
use crate::decode::{image_well_formed, ImageEntry};
use crate::errors::{ConfigKind, HWTracerError};
use crate::trace::Trace;
use crate::{ThreadTracer, Tracer, TracerState};

verus! {

/// What a capability probe of the platform found.
#[derive(Clone, Copy, Debug, PartialEq, Eq, Structural)]
pub enum Availability {
    /// A trace source can be opened.
    Available,
    /// The machine offers no hardware tracing facility.
    NoHardware,
    /// The facility exists but the caller may not open it.
    AccessDenied,
}

/// Copies the first `n` elements of a vector into a fresh one.
fn copy_prefix<T: Copy>(v: &Vec<T>, n: usize) -> (r: Vec<T>)
    requires
        n <= v@.len(),
    ensures
        r@ == v@.take(n as int),
{
    let mut r: Vec<T> = Vec::new();
    let mut i: usize = 0;
    while i < n
        invariant
            0 <= i <= n <= v@.len(),
            r@ == v@.take(i as int),
        decreases n - i,
    {
        r.push(v[i]);
        proof {
            assert(v@.take(i as int).push(v@[i as int]) =~= v@.take(i as int + 1));
        }
        i = i + 1;
    }
    r
}

/// A tracer factory bound to an in-memory capture.
///
/// Every collector it hands out replays the same capture template: on each
/// successful stop the template's bytes are drained through a collection
/// buffer of `buf_size` bytes, truncating and flagging overflow when the
/// template does not fit.
pub struct MemTracer {
    capture_bytes: Vec<u8>,
    capture_image: Vec<ImageEntry>,
    buf_size: usize,
    availability: Availability,
}

impl MemTracer {
    /// The raw bytes each collector will deliver.
    pub closed spec fn capture_bytes_spec(&self) -> Seq<u8> {
        self.capture_bytes@
    }

    /// The addressing context each trace will carry.
    pub closed spec fn capture_image_spec(&self) -> Seq<ImageEntry> {
        self.capture_image@
    }

    /// The size of the collection buffer each collector is configured with.
    pub closed spec fn buf_size_spec(&self) -> usize {
        self.buf_size
    }

    /// What the capability probe reported when this factory was built.
    pub closed spec fn availability_spec(&self) -> Availability {
        self.availability
    }

    /// Creates a factory for collectors that replay the given capture
    /// through a collection buffer of `buf_size` bytes, under the given
    /// probe result.
    ///
    /// The addressing context entering the library here must be well formed
    /// (each entry ordered, its fallthrough following its unit): decoding
    /// assumes it, and only under it does every decoded block satisfy the
    /// block invariant.
    pub fn new(
        capture_bytes: Vec<u8>,
        capture_image: Vec<ImageEntry>,
        buf_size: usize,
        availability: Availability,
    ) -> (t: Self)
        requires
            image_well_formed(capture_image@),
        ensures
            t.capture_bytes_spec() == capture_bytes@,
            t.capture_image_spec() == capture_image@,
            t.buf_size_spec() == buf_size,
            t.availability_spec() == availability,
    {
        MemTracer { capture_bytes, capture_image, buf_size, availability }
    }
}

/// A per-thread collector over an in-memory capture.
pub struct MemThreadTracer {
    state: TracerState,
    capture_bytes: Vec<u8>,
    capture_image: Vec<ImageEntry>,
    buf_size: usize,
    availability: Availability,
}

impl MemThreadTracer {
    /// Length of the capture template, before the collection buffer bound
    /// is applied.
    pub closed spec fn template_len(&self) -> nat {
        self.capture_bytes@.len()
    }

    /// The size of this collector's collection buffer.
    pub closed spec fn buf_size_spec(&self) -> usize {
        self.buf_size
    }

    /// What the capability probe reported for this collector.
    pub closed spec fn availability_spec(&self) -> Availability {
        self.availability
    }

    /// A ready collector is one whose trace source can actually be armed:
    /// the probe found one and the collection buffer is not empty-sized.
    pub closed spec fn ready(&self) -> bool {
        self.availability == Availability::Available && self.buf_size > 0
    }

    /// The bytes a stop delivers: the template, truncated to the collection
    /// buffer where it does not fit.
    pub closed spec fn delivered(&self) -> Seq<u8> {
        if self.capture_bytes@.len() <= self.buf_size {
            self.capture_bytes@
        } else {
            self.capture_bytes@.take(self.buf_size as int)
        }
    }

    /// Starts and stops this collector `n` times in sequence.
    ///
    /// Law of repeated use: a ready, stopped collector can run any number of
    /// start/stop cycles, every cycle succeeds, and each cycle yields an
    /// independent trace holding the same delivered capture — bytes,
    /// addressing context and overflow flag alike — non-empty whenever the
    /// capture delivers at least one byte.
    pub fn trace_repeatedly(&mut self, n: usize) -> (traces: Vec<Trace>)
        requires
            old(self).state() == TracerState::Stopped,
            old(self).ready(),
        ensures
            final(self).state() == TracerState::Stopped,
            final(self).ready(),
            traces@.len() == n,
            forall|i: int| 0 <= i < n
                ==> (#[trigger] traces@[i]).bytes_spec() == old(self).delivered(),
            forall|i: int| 0 <= i < n
                ==> (#[trigger] traces@[i]).image_spec() == old(self).capture().1,
            forall|i: int| 0 <= i < n
                ==> (#[trigger] traces@[i]).overflowed_spec()
                    == (old(self).template_len() > old(self).buf_size_spec()),
    {
        let mut traces: Vec<Trace> = Vec::new();
        let mut done: usize = 0;
        while done < n
            invariant
                self.state() == TracerState::Stopped,
                self.ready() == old(self).ready(),
                old(self).ready(),
                self.capture() == old(self).capture(),
                self.delivered() == old(self).delivered(),
                self.template_len() == old(self).template_len(),
                self.buf_size_spec() == old(self).buf_size_spec(),
                0 <= done <= n,
                traces@.len() == done,
                forall|i: int| 0 <= i < done
                    ==> (#[trigger] traces@[i]).bytes_spec() == old(self).delivered(),
                forall|i: int| 0 <= i < done
                    ==> (#[trigger] traces@[i]).image_spec() == old(self).capture().1,
                forall|i: int| 0 <= i < done
                    ==> (#[trigger] traces@[i]).overflowed_spec()
                        == (old(self).template_len() > old(self).buf_size_spec()),
            decreases n - done,
        {
            let started = self.start_tracing();
            proof {
                assert(started is Ok);
            }
            let stopped = self.stop_tracing();
            proof {
                assert(stopped is Ok);
            }
            match stopped {
                Ok(t) => {
                    traces.push(t);
                }
                Err(_) => {
                    proof {
                        assert(false);
                    }
                }
            }
            done = done + 1;
        }
        traces
    }
}

impl Tracer for MemTracer {
    type Thread = MemThreadTracer;

    fn thread_tracer(&self) -> (t: MemThreadTracer)
        ensures
            t.availability_spec() == self.availability_spec(),
            t.buf_size_spec() == self.buf_size_spec(),
            t.template_len() == self.capture_bytes_spec().len(),
            t.ready() == (self.availability_spec() == Availability::Available
                && self.buf_size_spec() > 0),
            t.capture().0 == t.delivered(),
            t.delivered() == (if self.capture_bytes_spec().len() <= self.buf_size_spec() {
                self.capture_bytes_spec()
            } else {
                self.capture_bytes_spec().take(self.buf_size_spec() as int)
            }),
            t.capture().1 == self.capture_image_spec(),
            t.capture().2 == (self.capture_bytes_spec().len() > self.buf_size_spec()),
    {
        MemThreadTracer {
            state: TracerState::Stopped,
            capture_bytes: copy_prefix(&self.capture_bytes, self.capture_bytes.len()),
            capture_image: copy_prefix(&self.capture_image, self.capture_image.len()),
            buf_size: self.buf_size,
            availability: self.availability,
        }
    }
}

impl ThreadTracer for MemThreadTracer {
    closed spec fn state(&self) -> TracerState {
        self.state
    }

    closed spec fn capture(&self) -> (Seq<u8>, Seq<ImageEntry>, bool) {
        (self.delivered(), self.capture_image@, self.capture_bytes@.len() > self.buf_size)
    }

    /// Arms the in-memory trace source.  Success is owed exactly to a
    /// stopped, ready collector; an unavailable source surfaces the probe's
    /// finding, and a zero-sized collection buffer is rejected by
    /// configuration, in every case leaving the collector as it was.
    fn start_tracing(&mut self) -> (r: Result<(), HWTracerError>)
        ensures
            old(self).state() == TracerState::Stopped ==> {
                &&& (r is Ok <==> old(self).ready())
                &&& old(self).availability_spec() == Availability::NoHardware
                    ==> r == Err::<(), HWTracerError>(HWTracerError::NoHardwareSupport)
                &&& old(self).availability_spec() == Availability::AccessDenied
                    ==> r == Err::<(), HWTracerError>(HWTracerError::PermissionDenied)
                &&& old(self).availability_spec() == Availability::Available
                    && old(self).buf_size_spec() == 0
                    ==> r == Err::<(), HWTracerError>(
                        HWTracerError::BackendConfiguration(ConfigKind::ZeroSizedBuffer))
            },
            final(self).ready() == old(self).ready(),
            final(self).capture() == old(self).capture(),
            final(self).delivered() == old(self).delivered(),
            final(self).template_len() == old(self).template_len(),
            final(self).buf_size_spec() == old(self).buf_size_spec(),
            final(self).availability_spec() == old(self).availability_spec(),
    {
        match self.state {
            TracerState::Started => Err(TracerState::Started.as_error()),
            TracerState::Stopped => {
                match self.availability {
                    Availability::NoHardware => Err(HWTracerError::NoHardwareSupport),
                    Availability::AccessDenied => Err(HWTracerError::PermissionDenied),
                    Availability::Available => {
                        if self.buf_size == 0 {
                            Err(HWTracerError::BackendConfiguration(ConfigKind::ZeroSizedBuffer))
                        } else {
                            self.state = TracerState::Started;
                            Ok(())
                        }
                    }
                }
            }
        }
    }

    /// Disarms the collector and drains the capture into an owned trace.
    /// From `Started` a stop always succeeds; the trace holds the template
    /// truncated to the collection buffer, flagged overflowed exactly when
    /// the template did not fit.
    fn stop_tracing(&mut self) -> (r: Result<Trace, HWTracerError>)
        ensures
            old(self).state() == TracerState::Started ==> r is Ok,
            final(self).ready() == old(self).ready(),
            final(self).capture() == old(self).capture(),
            final(self).delivered() == old(self).delivered(),
            final(self).template_len() == old(self).template_len(),
            final(self).buf_size_spec() == old(self).buf_size_spec(),
            final(self).availability_spec() == old(self).availability_spec(),
    {
        match self.state {
            TracerState::Stopped => Err(TracerState::Stopped.as_error()),
            TracerState::Started => {
                self.state = TracerState::Stopped;
                let n = if self.capture_bytes.len() <= self.buf_size {
                    self.capture_bytes.len()
                } else {
                    self.buf_size
                };
                let overflowed = self.capture_bytes.len() > self.buf_size;
                let bytes = copy_prefix(&self.capture_bytes, n);
                let image = copy_prefix(&self.capture_image, self.capture_image.len());
                proof {
                    assert(self.capture_image@.take(self.capture_image@.len() as int)
                        =~= self.capture_image@);
                    if self.capture_bytes@.len() <= self.buf_size {
                        assert(self.capture_bytes@.take(self.capture_bytes@.len() as int)
                            =~= self.capture_bytes@);
                    }
                }
                Ok(Trace::from_capture(bytes, image, overflowed))
            }
        }
    }
}

} // verus!
