//! The raw trace format and its decoding, at the specification level.
//!
//! A captured buffer is a short header followed by a stream of
//! variable-length packets.  Decoding seeks to a synchronisation packet,
//! replays control-flow packets against the addressing context, and emits a
//! [`Block`](crate::Block) at every taken control-flow edge.  A malformed
//! region yields recoverable per-item errors and decoding resumes at the next
//! synchronisation packet; a malformed header terminates the whole decode
//! with a single fatal item.

use vstd::prelude::*;
use crate::Block;
use crate::errors::{DecodeKind, FatalKind, HWTracerError};

verus! {

/// First magic byte of a capture buffer header.
pub const HDR_MAGIC_0: u8 = 0x68;
/// Second magic byte of a capture buffer header.
pub const HDR_MAGIC_1: u8 = 0x77;
/// Third magic byte of a capture buffer header.
pub const HDR_MAGIC_2: u8 = 0x74;
/// The one packet-encoding variant this decoder understands.
pub const HDR_VERSION: u8 = 0x01;
/// Byte length of the buffer header.
pub const HEADER_LEN: usize = 4;

/// Padding byte; carries no information and is skipped.
pub const PKT_PAD: u8 = 0x00;
/// Synchronisation packet: the tag byte followed by the eight-byte
/// little-endian address of the next instruction to execute.  It
/// re-establishes a known decode position after an arbitrary seek.
pub const PKT_SYNC: u8 = 0x01;
/// A conditional branch at the end of the current straight-line unit was
/// taken.
pub const PKT_TAKEN: u8 = 0x02;
/// A conditional branch at the end of the current straight-line unit fell
/// through to its linear successor.
pub const PKT_NOT_TAKEN: u8 = 0x03;
/// An indirect branch was taken: the tag byte followed by the eight-byte
/// little-endian target address.
pub const PKT_TIP: u8 = 0x04;
/// The hardware recorded that trace data was lost at this point.
pub const PKT_LOST: u8 = 0x05;

/// One entry of the addressing context: what the binary image says about the
/// straight-line instruction unit that starts at `first_instr`.
#[derive(Clone, Copy, Debug, PartialEq, Eq, Structural)]
pub struct ImageEntry {
    /// Virtual address of the first instruction of the unit.
    pub first_instr: u64,
    /// Virtual address of the last instruction of the unit (the branch).
    pub last_instr: u64,
    /// Address executed next when the ending branch is not taken.
    pub fallthrough: u64,
    /// Address executed next when the ending direct branch is taken.
    pub taken_target: u64,
}

/// One element of a decoded block sequence: a reconstructed block, or a
/// decode error confined to one position of the stream.
pub type DecodeItem = Result<Block, HWTracerError>;

/// Where a decode pass stands within the packet stream.
#[derive(Clone, Copy, Debug, PartialEq, Eq, Structural)]
pub enum DecodePhase {
    /// The header has not been examined yet.
    AtHeader,
    /// Looking for the next synchronisation packet.
    Unsynced,
    /// Following control flow: `block_start` is the first instruction of the
    /// block being assembled, `unit` the first instruction of the
    /// straight-line unit the stream currently stands in.
    Synced { block_start: u64, unit: u64 },
    /// The pass is over; no further item will be produced.
    Done,
}

/// The buffer begins with the three magic bytes of a capture header.
pub open spec fn header_well_formed(s: Seq<u8>) -> bool {
    &&& s.len() >= HEADER_LEN
    &&& s[0] == HDR_MAGIC_0
    &&& s[1] == HDR_MAGIC_1
    &&& s[2] == HDR_MAGIC_2
}

/// The header names the packet-encoding variant this decoder supports.
pub open spec fn header_version_ok(s: Seq<u8>) -> bool {
    s.len() >= HEADER_LEN && s[3] == HDR_VERSION
}

/// The unsigned 64-bit value stored little-endian at `s[i .. i + 8]`.
pub open spec fn le64_at(s: Seq<u8>, i: int) -> u64 {
    (s[i] as u64)
        | ((s[i + 1] as u64) << 8)
        | ((s[i + 2] as u64) << 16)
        | ((s[i + 3] as u64) << 24)
        | ((s[i + 4] as u64) << 32)
        | ((s[i + 5] as u64) << 40)
        | ((s[i + 6] as u64) << 48)
        | ((s[i + 7] as u64) << 56)
}

/// The first entry of the addressing context whose unit starts at `addr`.
pub open spec fn img_lookup(img: Seq<ImageEntry>, addr: u64) -> Option<ImageEntry>
    decreases img.len(),
{
    if img.len() == 0 {
        None
    } else if img[0].first_instr == addr {
        Some(img[0])
    } else {
        img_lookup(img.subrange(1, img.len() as int), addr)
    }
}

/// A well-formed addressing-context entry: the unit's instructions are
/// ordered, and its fallthrough lies at or after its last instruction (the
/// linear successor follows the unit).
pub open spec fn entry_well_formed(e: ImageEntry) -> bool {
    e.first_instr <= e.last_instr && e.last_instr <= e.fallthrough
}

/// A well-formed addressing context: every entry is well formed.  Under
/// this, decoding only ever yields blocks whose first instruction lies at or
/// below their last — the invariant every block consumer assumes.
pub open spec fn image_well_formed(img: Seq<ImageEntry>) -> bool {
    forall|i: int| 0 <= i < img.len() ==> entry_well_formed(#[trigger] img[i])
}

/// The one block invariant: an `Ok` item carries a block whose first
/// instruction address lies at or below its last.
pub open spec fn block_item_ordered(item: DecodeItem) -> bool {
    match item {
        Ok(b) => b.first_instr <= b.last_instr,
        Err(_) => true,
    }
}

/// Every `Ok` item of the sequence carries an ordered block.
pub open spec fn items_blocks_ordered(items: Seq<DecodeItem>) -> bool {
    forall|i: int| 0 <= i < items.len() ==> block_item_ordered(#[trigger] items[i])
}

/// The start of the block being assembled never lies above the unit the
/// stream stands in; outside a synchronised region there is no pending
/// block.
pub open spec fn phase_ordered(ph: DecodePhase) -> bool {
    match ph {
        DecodePhase::Synced { block_start, unit } => block_start <= unit,
        _ => true,
    }
}

/// Rank used to show that a decode pass terminates: `Done` makes no further
/// step.
pub open spec fn phase_rank(ph: DecodePhase) -> int {
    match ph {
        DecodePhase::Done => 0,
        _ => 1,
    }
}

/// One decode step after the header: from position `pos` in phase `ph`,
/// the new position, the new phase, and the item produced, if any.
///
/// Every step either consumes at least one byte or moves to `Done`, so a
/// decode pass is finite.
pub open spec fn step(s: Seq<u8>, img: Seq<ImageEntry>, pos: int, ph: DecodePhase)
    -> (int, DecodePhase, Option<DecodeItem>)
{
    match ph {
        DecodePhase::AtHeader | DecodePhase::Done => (pos, DecodePhase::Done, None),
        DecodePhase::Unsynced => {
            if pos >= s.len() {
                (pos, DecodePhase::Done, None)
            } else if s[pos] == PKT_PAD {
                (pos + 1, DecodePhase::Unsynced, None)
            } else if s[pos] == PKT_SYNC {
                if pos + 9 <= s.len() {
                    let a = le64_at(s, pos + 1);
                    (pos + 9, DecodePhase::Synced { block_start: a, unit: a }, None)
                } else {
                    (s.len() as int, DecodePhase::Done,
                        Some(Err(HWTracerError::Decode(DecodeKind::Truncated))))
                }
            } else {
                (pos + 1, DecodePhase::Unsynced,
                    Some(Err(HWTracerError::Decode(DecodeKind::Desync))))
            }
        }
        DecodePhase::Synced { block_start, unit } => {
            if pos >= s.len() {
                (pos, DecodePhase::Done, None)
            } else if s[pos] == PKT_PAD {
                (pos + 1, ph, None)
            } else if s[pos] == PKT_SYNC {
                if pos + 9 <= s.len() {
                    let a = le64_at(s, pos + 1);
                    (pos + 9, DecodePhase::Synced { block_start: a, unit: a }, None)
                } else {
                    (s.len() as int, DecodePhase::Done,
                        Some(Err(HWTracerError::Decode(DecodeKind::Truncated))))
                }
            } else if s[pos] == PKT_TAKEN {
                match img_lookup(img, unit) {
                    Some(e) => (pos + 1,
                        DecodePhase::Synced { block_start: e.taken_target, unit: e.taken_target },
                        Some(Ok(Block { first_instr: block_start, last_instr: e.last_instr }))),
                    None => (pos + 1, DecodePhase::Unsynced,
                        Some(Err(HWTracerError::Decode(DecodeKind::NoMapping)))),
                }
            } else if s[pos] == PKT_NOT_TAKEN {
                match img_lookup(img, unit) {
                    Some(e) => (pos + 1,
                        DecodePhase::Synced { block_start: block_start, unit: e.fallthrough },
                        None),
                    None => (pos + 1, DecodePhase::Unsynced,
                        Some(Err(HWTracerError::Decode(DecodeKind::NoMapping)))),
                }
            } else if s[pos] == PKT_TIP {
                if pos + 9 <= s.len() {
                    match img_lookup(img, unit) {
                        Some(e) => {
                            let t = le64_at(s, pos + 1);
                            (pos + 9, DecodePhase::Synced { block_start: t, unit: t },
                                Some(Ok(Block { first_instr: block_start, last_instr: e.last_instr })))
                        }
                        None => (pos + 9, DecodePhase::Unsynced,
                            Some(Err(HWTracerError::Decode(DecodeKind::NoMapping)))),
                    }
                } else {
                    (s.len() as int, DecodePhase::Done,
                        Some(Err(HWTracerError::Decode(DecodeKind::Truncated))))
                }
            } else if s[pos] == PKT_LOST {
                (pos + 1, DecodePhase::Unsynced,
                    Some(Err(HWTracerError::Decode(DecodeKind::Overflow))))
            } else {
                (pos + 1, DecodePhase::Unsynced,
                    Some(Err(HWTracerError::Decode(DecodeKind::UnknownPacket))))
            }
        }
    }
}

/// The items a decode pass produces from position `pos` in phase `ph` to the
/// end of the buffer.
pub open spec fn decode_from(s: Seq<u8>, img: Seq<ImageEntry>, pos: int, ph: DecodePhase)
    -> Seq<DecodeItem>
    decreases s.len() - pos, phase_rank(ph),
{
    if ph is Done || ph is AtHeader || pos < 0 || pos > s.len() {
        Seq::empty()
    } else {
        let r = step(s, img, pos, ph);
        let rest = decode_from(s, img, r.0, r.1);
        match r.2 {
            Some(item) => seq![item].add(rest),
            None => rest,
        }
    }
}

/// The full item sequence a decode pass over buffer `s` with addressing
/// context `img` produces: a single fatal item if the header is unusable,
/// else the packet stream decoded from just after the header.
pub open spec fn decode_items(s: Seq<u8>, img: Seq<ImageEntry>) -> Seq<DecodeItem> {
    if !header_well_formed(s) {
        seq![Err(HWTracerError::Fatal(FatalKind::BadHeader))]
    } else if !header_version_ok(s) {
        seq![Err(HWTracerError::Fatal(FatalKind::UnsupportedVariant))]
    } else {
        decode_from(s, img, HEADER_LEN as int, DecodePhase::Unsynced)
    }
}

/// A successful lookup finds the entry of the address asked for, and in a
/// well-formed addressing context that entry is well formed.
pub proof fn lemma_lookup_well_formed(img: Seq<ImageEntry>, addr: u64)
    requires
        image_well_formed(img),
    ensures
        match img_lookup(img, addr) {
            Some(e) => e.first_instr == addr && entry_well_formed(e),
            None => true,
        },
    decreases img.len(),
{
    if img.len() == 0 {
    } else if img[0].first_instr == addr {
        assert(entry_well_formed(img[0]));
    } else {
        let tail = img.subrange(1, img.len() as int);
        assert forall|i: int| 0 <= i < tail.len() implies entry_well_formed(#[trigger] tail[i]) by {
            assert(tail[i] == img[i + 1]);
            assert(entry_well_formed(img[i + 1]));
        }
        lemma_lookup_well_formed(tail, addr);
    }
}

/// Inductive engine of the block invariant: from any phase whose pending
/// block start lies at or below the current unit, a decode pass over a
/// well-formed addressing context yields only ordered blocks.
proof fn lemma_decode_from_blocks_ordered(
    s: Seq<u8>,
    img: Seq<ImageEntry>,
    pos: int,
    ph: DecodePhase,
)
    requires
        image_well_formed(img),
        phase_ordered(ph),
    ensures
        items_blocks_ordered(decode_from(s, img, pos, ph)),
    decreases s.len() - pos, phase_rank(ph),
{
    let items = decode_from(s, img, pos, ph);
    if ph is Done || ph is AtHeader || pos < 0 || pos > s.len() {
        assert(items =~= Seq::<DecodeItem>::empty());
    } else {
        let r = step(s, img, pos, ph);
        match ph {
            DecodePhase::Synced { block_start, unit } => {
                lemma_lookup_well_formed(img, unit);
            }
            _ => {}
        }
        assert(phase_ordered(r.1));
        lemma_decode_from_blocks_ordered(s, img, r.0, r.1);
        let rest = decode_from(s, img, r.0, r.1);
        match r.2 {
            Some(item) => {
                assert(block_item_ordered(item));
                assert(items == seq![item].add(rest));
                assert forall|i: int| 0 <= i < items.len()
                    implies block_item_ordered(#[trigger] items[i]) by {
                    if i > 0 {
                        assert(items[i] == rest[i - 1]);
                    }
                }
            }
            None => {
                assert(items == rest);
            }
        }
    }
}

/// Law of the block invariant: under a well-formed addressing context,
/// every `Ok` item a full decode pass yields carries a block with
/// `first_instr <= last_instr` — the property all block consumers assume.
pub proof fn lemma_decode_items_blocks_ordered(s: Seq<u8>, img: Seq<ImageEntry>)
    requires
        image_well_formed(img),
    ensures
        items_blocks_ordered(decode_items(s, img)),
{
    if header_well_formed(s) && header_version_ok(s) {
        lemma_decode_from_blocks_ordered(s, img, HEADER_LEN as int, DecodePhase::Unsynced);
    } else {
        assert forall|i: int| 0 <= i < decode_items(s, img).len()
            implies block_item_ordered(#[trigger] decode_items(s, img)[i]) by {
            assert(decode_items(s, img)[i] is Err);
        }
    }
}

/// Law of error classification, fatal half: a buffer whose header is
/// corrupted decodes to a single fatal item, and the sequence terminates
/// with no further items.
pub proof fn lemma_bad_header_fatal(s: Seq<u8>, img: Seq<ImageEntry>)
    requires
        !header_well_formed(s),
    ensures
        decode_items(s, img)
            == seq![Err::<Block, HWTracerError>(HWTracerError::Fatal(FatalKind::BadHeader))],
{
}

/// Law of error classification, recoverable half: a corrupted region met
/// while looking for synchronisation yields one recoverable `Desync` item
/// per corrupted byte, and decoding then resumes at the end of the region —
/// in particular with the blocks a following synchronisation packet governs.
pub proof fn lemma_desync_run_recovers(s: Seq<u8>, img: Seq<ImageEntry>, pos: int, end: int)
    requires
        0 <= pos <= end <= s.len(),
        forall|k: int| pos <= k < end ==> s[k] != PKT_PAD && s[k] != PKT_SYNC,
    ensures
        decode_from(s, img, pos, DecodePhase::Unsynced)
            =~= Seq::new((end - pos) as nat,
                    |i: int| Err::<Block, HWTracerError>(HWTracerError::Decode(DecodeKind::Desync)))
                .add(decode_from(s, img, end, DecodePhase::Unsynced)),
    decreases end - pos,
{
    if pos < end {
        lemma_desync_run_recovers(s, img, pos + 1, end);
    }
}

/// A synchronisation packet re-establishes a known decode position: after
/// it, decoding continues in the synchronised phase at the packet's target
/// address.
pub proof fn lemma_sync_packet(s: Seq<u8>, img: Seq<ImageEntry>, pos: int)
    requires
        0 <= pos,
        pos + 9 <= s.len(),
        s[pos] == PKT_SYNC,
    ensures
        decode_from(s, img, pos, DecodePhase::Unsynced)
            == decode_from(s, img, pos + 9,
                DecodePhase::Synced {
                    block_start: le64_at(s, pos + 1),
                    unit: le64_at(s, pos + 1),
                }),
{
}

/// Law of block-count scaling: inside a synchronised region whose
/// straight-line unit branches back to itself, a run of `n` taken-branch
/// packets decodes to exactly `n` blocks.  Block emission thus scales with
/// control-flow repetition: a workload that repeats a loop body ten times as
/// often yields ten times the blocks, not a quantity tied to buffer size.
pub proof fn lemma_taken_run_blocks(s: Seq<u8>, img: Seq<ImageEntry>, pos: int, e: ImageEntry)
    requires
        0 <= pos <= s.len(),
        forall|k: int| pos <= k < s.len() ==> s[k] == PKT_TAKEN,
        img_lookup(img, e.first_instr) == Some(e),
        e.taken_target == e.first_instr,
    ensures
        decode_from(s, img, pos,
                DecodePhase::Synced { block_start: e.first_instr, unit: e.first_instr })
            =~= Seq::new((s.len() - pos) as nat,
                    |i: int| Ok::<Block, HWTracerError>(
                        Block { first_instr: e.first_instr, last_instr: e.last_instr })),
    decreases s.len() - pos,
{
    if pos < s.len() {
        lemma_taken_run_blocks(s, img, pos + 1, e);
        let ph = DecodePhase::Synced { block_start: e.first_instr, unit: e.first_instr };
        let item = Ok::<Block, HWTracerError>(
            Block { first_instr: e.first_instr, last_instr: e.last_instr });
        assert(step(s, img, pos, ph) == (pos + 1, ph, Some(item)));
        assert(decode_from(s, img, pos, ph) == seq![item].add(decode_from(s, img, pos + 1, ph)));
        assert(seq![item].add(Seq::new((s.len() - pos - 1) as nat, |i: int| item))
            =~= Seq::new((s.len() - pos) as nat, |i: int| item));
    } else {
        assert(decode_from(s, img, pos, DecodePhase::Done) == Seq::<DecodeItem>::empty());
    }
}

/// Law of block-count scaling, stated of a whole capture: a buffer holding
/// a well-formed header, one synchronisation packet aimed at a self-looping
/// unit, and then a run of taken-branch packets decodes to exactly one block
/// per taken edge and nothing else.  Two captures of the same loop whose
/// bodies ran `n` and `10 * n` times thus decode to block counts in exactly
/// that ratio.
pub proof fn lemma_loop_capture_block_count(s: Seq<u8>, img: Seq<ImageEntry>, e: ImageEntry)
    requires
        header_well_formed(s),
        header_version_ok(s),
        s.len() >= HEADER_LEN as int + 9,
        s[HEADER_LEN as int] == PKT_SYNC,
        le64_at(s, HEADER_LEN as int + 1) == e.first_instr,
        forall|k: int| HEADER_LEN as int + 9 <= k < s.len() ==> s[k] == PKT_TAKEN,
        img_lookup(img, e.first_instr) == Some(e),
        e.taken_target == e.first_instr,
    ensures
        decode_items(s, img)
            =~= Seq::new((s.len() - HEADER_LEN - 9) as nat,
                |i: int| Ok::<Block, HWTracerError>(
                    Block { first_instr: e.first_instr, last_instr: e.last_instr })),
{
    lemma_sync_packet(s, img, HEADER_LEN as int);
    lemma_taken_run_blocks(s, img, HEADER_LEN as int + 9, e);
}

/// Reads the little-endian 64-bit value at `bytes[i .. i + 8]`.
pub(crate) fn read_le64(bytes: &Vec<u8>, i: usize) -> (v: u64)
    requires
        i + 8 <= bytes@.len(),
    ensures
        v == le64_at(bytes@, i as int),
{
    let n: usize = bytes.len();
    assert(i + 8 <= n);
    (bytes[i] as u64)
        | ((bytes[i + 1] as u64) << 8)
        | ((bytes[i + 2] as u64) << 16)
        | ((bytes[i + 3] as u64) << 24)
        | ((bytes[i + 4] as u64) << 32)
        | ((bytes[i + 5] as u64) << 40)
        | ((bytes[i + 6] as u64) << 48)
        | ((bytes[i + 7] as u64) << 56)
}

/// Finds the first entry of the addressing context whose unit starts at
/// `addr`.
pub(crate) fn lookup_entry(entries: &Vec<ImageEntry>, addr: u64) -> (r: Option<ImageEntry>)
    ensures
        r == img_lookup(entries@, addr),
{
    proof {
        assert(entries@.subrange(0, entries@.len() as int) =~= entries@);
    }
    let mut i: usize = 0;
    while i < entries.len()
        invariant
            0 <= i <= entries@.len(),
            img_lookup(entries@, addr)
                == img_lookup(entries@.subrange(i as int, entries@.len() as int), addr),
        decreases entries@.len() - i,
    {
        if entries[i].first_instr == addr {
            proof {
                assert(entries@.subrange(i as int, entries@.len() as int)[0] == entries@[i as int]);
            }
            return Some(entries[i]);
        }
        proof {
            assert(entries@.subrange(i as int, entries@.len() as int)
                .subrange(1, entries@.len() - i as int)
                =~= entries@.subrange(i as int + 1, entries@.len() as int));
        }
        i = i + 1;
    }
    proof {
        assert(entries@.subrange(entries@.len() as int, entries@.len() as int).len() == 0);
    }
    None
}

} // verus!
