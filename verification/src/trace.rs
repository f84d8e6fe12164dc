//! The owned trace value and its lazy block decoding.

use vstd::prelude::*;
use crate::errors::{DecodeKind, FatalKind, HWTracerError};
use crate::decode::{
    decode_from, decode_items, image_well_formed, items_blocks_ordered,
    lemma_decode_items_blocks_ordered, lookup_entry, read_le64, DecodeItem, DecodePhase,
    ImageEntry, HDR_MAGIC_0, HDR_MAGIC_1, HDR_MAGIC_2, HDR_VERSION, HEADER_LEN, PKT_LOST,
    PKT_NOT_TAKEN, PKT_PAD, PKT_SYNC, PKT_TAKEN, PKT_TIP,
};
use crate::Block;

verus! {

/// An owned capture of raw hardware-generated control-flow data for one
/// tracing session, plus the addressing context required to decode it.
///
/// A trace is created exclusively by stopping a collector, is immutable
/// thereafter, and is a pure data value: it may move to a different thread
/// than the one that recorded it, and decoding it is read-only, so several
/// independent decode passes may run over the same trace.
#[derive(Debug)]
pub struct Trace {
    bytes: Vec<u8>,
    image: Vec<ImageEntry>,
    overflowed: bool,
}

impl Trace {
    /// The captured raw bytes.
    pub closed spec fn bytes_spec(&self) -> Seq<u8> {
        self.bytes@
    }

    /// The addressing context captured alongside the bytes.
    pub closed spec fn image_spec(&self) -> Seq<ImageEntry> {
        self.image@
    }

    /// Whether the kernel-side buffer reached its capacity while collecting.
    pub closed spec fn overflowed_spec(&self) -> bool {
        self.overflowed
    }

    /// The item sequence that every full decode pass over this trace
    /// produces.
    pub open spec fn items(&self) -> Seq<DecodeItem> {
        decode_items(self.bytes_spec(), self.image_spec())
    }

    /// Builds a trace from a capture drained out of a collection buffer.
    pub(crate) fn from_capture(bytes: Vec<u8>, image: Vec<ImageEntry>, overflowed: bool)
        -> (t: Trace)
        ensures
            t.bytes_spec() == bytes@,
            t.image_spec() == image@,
            t.overflowed_spec() == overflowed,
    {
        Trace { bytes, image, overflowed }
    }

    /// Total byte size of the captured buffer, independent of how many
    /// blocks decode from it.
    pub fn capacity(&self) -> (n: usize)
        ensures
            n == self.bytes_spec().len(),
    {
        self.bytes.len()
    }

    /// Whether trace data was dropped because the collection buffer filled.
    /// The trace is still decodable up to the point of overflow: this is a
    /// data-quality signal, not an operation failure.
    pub fn overflowed(&self) -> (o: bool)
        ensures
            o == self.overflowed_spec(),
    {
        self.overflowed
    }

    /// The captured bytes, verbatim; what a raw dump for offline diagnosis
    /// writes out.
    pub fn as_bytes(&self) -> (b: &Vec<u8>)
        ensures
            b@ == self.bytes_spec(),
    {
        &self.bytes
    }

    /// Starts a lazy, single-pass decode of the blocks of the trace.
    ///
    /// Each call starts a fresh pass from the beginning of the same stored
    /// buffer, so two passes over one trace produce identical item
    /// sequences.
    pub fn iter_blocks<'t>(&'t self) -> (it: BlockIterator<'t>)
        ensures
            it.wf(),
            it.src() == *self,
            it.remaining() == self.items(),
    {
        BlockIterator { trace: self, pos: 0, phase: DecodePhase::AtHeader }
    }

    /// Decodes the whole trace eagerly into the full item sequence.
    ///
    /// Law of idempotent iteration: the result equals `items()`, a function
    /// of the stored trace alone, so every decode pass over one trace —
    /// eager or by `iter_blocks` — produces exactly the same items in the
    /// same order.
    pub fn decode_all(&self) -> (items: Vec<DecodeItem>)
        ensures
            items@ == self.items(),
    {
        let mut it = self.iter_blocks();
        let mut out: Vec<DecodeItem> = Vec::new();
        proof {
            assert(out@.add(it.remaining()) =~= self.items());
        }
        loop
            invariant
                it.wf(),
                it.src() == *self,
                out@.add(it.remaining()) == self.items(),
            decreases it.remaining().len(),
        {
            match it.next() {
                Some(item) => {
                    out.push(item);
                    proof {
                        assert(out@.add(it.remaining()) =~= self.items());
                    }
                }
                None => {
                    proof {
                        assert(out@.add(it.remaining()) =~= out@);
                    }
                    return out;
                }
            }
        }
    }
}

/// Law of the block invariant, at the trace: under a well-formed addressing
/// context — what every collector requires of the image handed to it —
/// every `Ok` item of `items()` carries a block whose first instruction
/// lies at or below its last, the invariant all block consumers assume.
pub proof fn lemma_trace_blocks_ordered(t: &Trace)
    requires
        image_well_formed(t.image_spec()),
    ensures
        items_blocks_ordered(t.items()),
{
    lemma_decode_items_blocks_ordered(t.bytes_spec(), t.image_spec());
}

/// A lazy, single-pass producer of decoded blocks and per-item decode
/// errors, driven by [`BlockIterator::next`].
///
/// An `Err` item does not necessarily end the sequence: a recoverable error
/// leaves the pass looking for the next synchronisation packet, and blocks
/// may follow.  The pass is over only when `next` returns `None`.
pub struct BlockIterator<'t> {
    trace: &'t Trace,
    pos: usize,
    phase: DecodePhase,
}

impl<'t> BlockIterator<'t> {
    /// The trace this pass reads.
    pub closed spec fn src(&self) -> Trace {
        *self.trace
    }

    /// Validity of the decode cursor.
    pub closed spec fn wf(&self) -> bool {
        &&& self.pos <= self.trace.bytes@.len()
        &&& self.phase is AtHeader ==> self.pos == 0
    }

    /// The items this pass has yet to produce.
    pub closed spec fn remaining(&self) -> Seq<DecodeItem> {
        if self.phase is AtHeader {
            decode_items(self.trace.bytes@, self.trace.image@)
        } else {
            decode_from(self.trace.bytes@, self.trace.image@, self.pos as int, self.phase)
        }
    }

    /// Produces the next block or per-item decode error, or `None` once the
    /// packet stream is exhausted.
    pub fn next(&mut self) -> (r: Option<DecodeItem>)
        requires
            old(self).wf(),
        ensures
            final(self).wf(),
            final(self).src() == old(self).src(),
            (match r {
                Some(item) => old(self).remaining() == seq![item].add(final(self).remaining()),
                None => old(self).remaining().len() == 0 && final(self).remaining().len() == 0,
            }),
    {
        loop
            invariant
                self.wf(),
                self.src() == old(self).src(),
                self.trace == old(self).trace,
                self.remaining() == old(self).remaining(),
            decreases self.trace.bytes@.len() - self.pos,
        {
            let ghost s = self.trace.bytes@;
            let ghost img = self.trace.image@;
            let ghost p = self.pos as int;
            let ghost ph = self.phase;
            let blen = self.trace.bytes.len();
            match self.phase {
                DecodePhase::AtHeader => {
                    let magic_ok = blen >= HEADER_LEN
                        && self.trace.bytes[0] == HDR_MAGIC_0
                        && self.trace.bytes[1] == HDR_MAGIC_1
                        && self.trace.bytes[2] == HDR_MAGIC_2;
                    if !magic_ok {
                        self.pos = blen;
                        self.phase = DecodePhase::Done;
                        let item: DecodeItem = Err(HWTracerError::Fatal(FatalKind::BadHeader));
                        proof {
                            assert(seq![item].add(Seq::empty()) =~= seq![item]);
                        }
                        return Some(item);
                    }
                    if self.trace.bytes[3] != HDR_VERSION {
                        self.pos = blen;
                        self.phase = DecodePhase::Done;
                        let item: DecodeItem =
                            Err(HWTracerError::Fatal(FatalKind::UnsupportedVariant));
                        proof {
                            assert(seq![item].add(Seq::empty()) =~= seq![item]);
                        }
                        return Some(item);
                    }
                    self.pos = HEADER_LEN;
                    self.phase = DecodePhase::Unsynced;
                }
                DecodePhase::Done => {
                    return None;
                }
                DecodePhase::Unsynced => {
                    if self.pos >= blen {
                        self.phase = DecodePhase::Done;
                        proof {
                            assert(decode_from(s, img, p, DecodePhase::Done) =~= Seq::empty());
                        }
                        return None;
                    }
                    let b0 = self.trace.bytes[self.pos];
                    if b0 == PKT_PAD {
                        self.pos = self.pos + 1;
                    } else if b0 == PKT_SYNC {
                        if blen - self.pos >= 9 {
                            let a = read_le64(&self.trace.bytes, self.pos + 1);
                            self.pos = self.pos + 9;
                            self.phase = DecodePhase::Synced { block_start: a, unit: a };
                        } else {
                            self.pos = blen;
                            self.phase = DecodePhase::Done;
                            let item: DecodeItem =
                                Err(HWTracerError::Decode(DecodeKind::Truncated));
                            proof {
                                assert(decode_from(s, img, blen as int, DecodePhase::Done)
                                    =~= Seq::empty());
                            }
                            return Some(item);
                        }
                    } else {
                        self.pos = self.pos + 1;
                        let item: DecodeItem = Err(HWTracerError::Decode(DecodeKind::Desync));
                        return Some(item);
                    }
                }
                DecodePhase::Synced { block_start, unit } => {
                    if self.pos >= blen {
                        self.phase = DecodePhase::Done;
                        proof {
                            assert(decode_from(s, img, p, DecodePhase::Done) =~= Seq::empty());
                        }
                        return None;
                    }
                    let b0 = self.trace.bytes[self.pos];
                    if b0 == PKT_PAD {
                        self.pos = self.pos + 1;
                    } else if b0 == PKT_SYNC {
                        if blen - self.pos >= 9 {
                            let a = read_le64(&self.trace.bytes, self.pos + 1);
                            self.pos = self.pos + 9;
                            self.phase = DecodePhase::Synced { block_start: a, unit: a };
                        } else {
                            self.pos = blen;
                            self.phase = DecodePhase::Done;
                            let item: DecodeItem =
                                Err(HWTracerError::Decode(DecodeKind::Truncated));
                            proof {
                                assert(decode_from(s, img, blen as int, DecodePhase::Done)
                                    =~= Seq::empty());
                            }
                            return Some(item);
                        }
                    } else if b0 == PKT_TAKEN {
                        match lookup_entry(&self.trace.image, unit) {
                            Some(e) => {
                                self.pos = self.pos + 1;
                                self.phase = DecodePhase::Synced {
                                    block_start: e.taken_target,
                                    unit: e.taken_target,
                                };
                                let item: DecodeItem =
                                    Ok(Block::new(block_start, e.last_instr));
                                return Some(item);
                            }
                            None => {
                                self.pos = self.pos + 1;
                                self.phase = DecodePhase::Unsynced;
                                let item: DecodeItem =
                                    Err(HWTracerError::Decode(DecodeKind::NoMapping));
                                return Some(item);
                            }
                        }
                    } else if b0 == PKT_NOT_TAKEN {
                        match lookup_entry(&self.trace.image, unit) {
                            Some(e) => {
                                self.pos = self.pos + 1;
                                self.phase = DecodePhase::Synced {
                                    block_start: block_start,
                                    unit: e.fallthrough,
                                };
                            }
                            None => {
                                self.pos = self.pos + 1;
                                self.phase = DecodePhase::Unsynced;
                                let item: DecodeItem =
                                    Err(HWTracerError::Decode(DecodeKind::NoMapping));
                                return Some(item);
                            }
                        }
                    } else if b0 == PKT_TIP {
                        if blen - self.pos >= 9 {
                            match lookup_entry(&self.trace.image, unit) {
                                Some(e) => {
                                    let t = read_le64(&self.trace.bytes, self.pos + 1);
                                    self.pos = self.pos + 9;
                                    self.phase = DecodePhase::Synced {
                                        block_start: t,
                                        unit: t,
                                    };
                                    let item: DecodeItem =
                                        Ok(Block::new(block_start, e.last_instr));
                                    return Some(item);
                                }
                                None => {
                                    self.pos = self.pos + 9;
                                    self.phase = DecodePhase::Unsynced;
                                    let item: DecodeItem =
                                        Err(HWTracerError::Decode(DecodeKind::NoMapping));
                                    return Some(item);
                                }
                            }
                        } else {
                            self.pos = blen;
                            self.phase = DecodePhase::Done;
                            let item: DecodeItem =
                                Err(HWTracerError::Decode(DecodeKind::Truncated));
                            proof {
                                assert(decode_from(s, img, blen as int, DecodePhase::Done)
                                    =~= Seq::empty());
                            }
                            return Some(item);
                        }
                    } else if b0 == PKT_LOST {
                        self.pos = self.pos + 1;
                        self.phase = DecodePhase::Unsynced;
                        let item: DecodeItem = Err(HWTracerError::Decode(DecodeKind::Overflow));
                        return Some(item);
                    } else {
                        self.pos = self.pos + 1;
                        self.phase = DecodePhase::Unsynced;
                        let item: DecodeItem =
                            Err(HWTracerError::Decode(DecodeKind::UnknownPacket));
                        return Some(item);
                    }
                }
            }
        }
    }
}

} // verus!
