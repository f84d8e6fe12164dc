//! Decoding tests: block reconstruction, resynchronisation and the error
//! taxonomy, driven through captures replayed by the in-memory backend.

use hwtracer::backends::{Availability, MemTracer};
use hwtracer::decode::ImageEntry;
use hwtracer::errors::{DecodeKind, FatalKind, HWTracerError};
use hwtracer::{Block, ThreadTracer, Trace, Tracer};

const PAD: u8 = 0x00;
const SYNC: u8 = 0x01;
const TAKEN: u8 = 0x02;
const NOT_TAKEN: u8 = 0x03;
const TIP: u8 = 0x04;
const LOST: u8 = 0x05;

fn header() -> Vec<u8> {
    vec![0x68, 0x77, 0x74, 0x01]
}

fn push_addr_packet(buf: &mut Vec<u8>, tag: u8, addr: u64) {
    buf.push(tag);
    buf.extend_from_slice(&addr.to_le_bytes());
}

fn entry(first: u64, last: u64, fall: u64, taken: u64) -> ImageEntry {
    ImageEntry {
        first_instr: first,
        last_instr: last,
        fallthrough: fall,
        taken_target: taken,
    }
}

fn mk_trace(bytes: Vec<u8>, image: Vec<ImageEntry>) -> Trace {
    let factory = MemTracer::new(bytes, image, 1 << 20, Availability::Available);
    let mut tracer = factory.thread_tracer();
    tracer.start_tracing().unwrap();
    tracer.stop_tracing().unwrap()
}

fn collect(trace: &Trace) -> Vec<Result<Block, HWTracerError>> {
    let mut it = trace.iter_blocks();
    let mut out = Vec::new();
    while let Some(item) = it.next() {
        out.push(item);
    }
    out
}

#[test]
fn test_expected_blocks() {
    // Two direct-branch units and one unit ending in an indirect branch; a
    // not-taken edge merges its unit into the enclosing block.
    let image = vec![
        entry(0x1000, 0x1010, 0x1011, 0x2000),
        entry(0x2000, 0x2008, 0x2009, 0x1000),
        entry(0x1011, 0x1020, 0x1021, 0x3000),
    ];
    let mut buf = header();
    push_addr_packet(&mut buf, SYNC, 0x1000);
    buf.push(TAKEN); // block 0x1000..0x1010, jump to 0x2000
    buf.push(TAKEN); // block 0x2000..0x2008, jump to 0x1000
    buf.push(NOT_TAKEN); // straight line: unit 0x1000 falls through to 0x1011
    push_addr_packet(&mut buf, TIP, 0x4000); // block 0x1000..0x1020
    let trace = mk_trace(buf, image);
    let got = collect(&trace);
    let expect = vec![
        Ok(Block::new(0x1000, 0x1010)),
        Ok(Block::new(0x2000, 0x2008)),
        Ok(Block::new(0x1000, 0x1020)),
    ];
    assert_eq!(got, expect);
}

#[test]
fn test_idempotent_iteration() {
    let image = vec![entry(0x10, 0x18, 0x19, 0x10)];
    let mut buf = header();
    push_addr_packet(&mut buf, SYNC, 0x10);
    buf.push(TAKEN);
    buf.push(0xee); // force one recoverable error into the sequence too
    push_addr_packet(&mut buf, SYNC, 0x10);
    buf.push(TAKEN);
    let trace = mk_trace(buf, image);
    let first_pass = collect(&trace);
    let second_pass = collect(&trace);
    assert_eq!(first_pass, second_pass);
    assert_eq!(first_pass.len(), 3);
}

#[test]
fn test_ten_times_as_many_blocks() {
    // One self-looping unit; N taken edges decode to exactly N blocks.
    let image = vec![entry(0x10, 0x18, 0x19, 0x10)];
    let mut small = header();
    push_addr_packet(&mut small, SYNC, 0x10);
    for _ in 0..5 {
        small.push(TAKEN);
    }
    let mut large = header();
    push_addr_packet(&mut large, SYNC, 0x10);
    for _ in 0..50 {
        large.push(TAKEN);
    }
    let trace1 = mk_trace(small, image.clone());
    let trace2 = mk_trace(large, image);
    let ct1 = collect(&trace1).len();
    let ct2 = collect(&trace2).len();
    assert_eq!(ct1, 5);
    assert_eq!(ct2, 50);
    assert_eq!(ct2, 10 * ct1);
    assert!(ct2 > ct1 * 9);
}

#[test]
fn test_corrupt_prefix_recovers() {
    let image = vec![entry(0x10, 0x18, 0x19, 0x10)];
    let mut buf = header();
    buf.push(0xff); // corruption before the first synchronisation packet
    buf.push(0xfe);
    push_addr_packet(&mut buf, SYNC, 0x10);
    buf.push(TAKEN);
    let trace = mk_trace(buf, image);
    let got = collect(&trace);
    let expect = vec![
        Err(HWTracerError::Decode(DecodeKind::Desync)),
        Err(HWTracerError::Decode(DecodeKind::Desync)),
        Ok(Block::new(0x10, 0x18)),
    ];
    assert_eq!(got, expect);
}

#[test]
fn test_corrupt_header_is_fatal() {
    let image = vec![entry(0x10, 0x18, 0x19, 0x10)];
    let mut buf = vec![0x00, 0x77, 0x74, 0x01];
    push_addr_packet(&mut buf, SYNC, 0x10);
    buf.push(TAKEN);
    let trace = mk_trace(buf, image);
    let mut it = trace.iter_blocks();
    assert_eq!(
        it.next(),
        Some(Err(HWTracerError::Fatal(FatalKind::BadHeader)))
    );
    // The sequence terminates with no further items.
    assert_eq!(it.next(), None);
    assert_eq!(it.next(), None);
}

#[test]
fn test_unsupported_variant_is_fatal() {
    let mut buf = vec![0x68, 0x77, 0x74, 0x02];
    push_addr_packet(&mut buf, SYNC, 0x10);
    let trace = mk_trace(buf, Vec::new());
    let got = collect(&trace);
    assert_eq!(
        got,
        vec![Err(HWTracerError::Fatal(FatalKind::UnsupportedVariant))]
    );
}

#[test]
fn test_truncated_packet() {
    let image = vec![entry(0x10, 0x18, 0x19, 0x10)];
    let mut buf = header();
    push_addr_packet(&mut buf, SYNC, 0x10);
    buf.push(TAKEN);
    buf.push(SYNC); // a synchronisation packet cut short by the buffer end
    buf.push(0x11);
    let trace = mk_trace(buf, image);
    let got = collect(&trace);
    let expect = vec![
        Ok(Block::new(0x10, 0x18)),
        Err(HWTracerError::Decode(DecodeKind::Truncated)),
    ];
    assert_eq!(got, expect);
}

#[test]
fn test_unknown_packet_resynchronises() {
    let image = vec![entry(0x10, 0x18, 0x19, 0x10)];
    let mut buf = header();
    push_addr_packet(&mut buf, SYNC, 0x10);
    buf.push(0x07); // not a packet tag
    push_addr_packet(&mut buf, SYNC, 0x10);
    buf.push(TAKEN);
    let trace = mk_trace(buf, image);
    let got = collect(&trace);
    let expect = vec![
        Err(HWTracerError::Decode(DecodeKind::UnknownPacket)),
        Ok(Block::new(0x10, 0x18)),
    ];
    assert_eq!(got, expect);
}

#[test]
fn test_lost_data_packet_resynchronises() {
    let image = vec![entry(0x10, 0x18, 0x19, 0x10)];
    let mut buf = header();
    push_addr_packet(&mut buf, SYNC, 0x10);
    buf.push(LOST);
    push_addr_packet(&mut buf, SYNC, 0x10);
    buf.push(TAKEN);
    let trace = mk_trace(buf, image);
    let got = collect(&trace);
    let expect = vec![
        Err(HWTracerError::Decode(DecodeKind::Overflow)),
        Ok(Block::new(0x10, 0x18)),
    ];
    assert_eq!(got, expect);
}

#[test]
fn test_unmapped_address() {
    let mut buf = header();
    push_addr_packet(&mut buf, SYNC, 0x99);
    buf.push(TAKEN);
    let trace = mk_trace(buf, Vec::new());
    let got = collect(&trace);
    assert_eq!(got, vec![Err(HWTracerError::Decode(DecodeKind::NoMapping))]);
}

#[test]
fn test_padding_is_skipped() {
    let image = vec![entry(0x10, 0x18, 0x19, 0x10)];
    let mut buf = header();
    buf.push(PAD);
    buf.push(PAD);
    push_addr_packet(&mut buf, SYNC, 0x10);
    buf.push(PAD);
    buf.push(TAKEN);
    let trace = mk_trace(buf, image);
    let got = collect(&trace);
    assert_eq!(got, vec![Ok(Block::new(0x10, 0x18))]);
}

#[test]
fn test_decoded_blocks_are_ordered() {
    // With a well-formed addressing context (entries ordered, fallthrough
    // after the unit), every decoded block satisfies first <= last, also
    // across not-taken chains that merge units into one block.
    let image = vec![
        entry(0x1000, 0x1010, 0x1011, 0x2000),
        entry(0x1011, 0x1020, 0x1021, 0x3000),
        entry(0x1021, 0x1030, 0x1031, 0x1000),
    ];
    let mut buf = header();
    push_addr_packet(&mut buf, SYNC, 0x1000);
    buf.push(NOT_TAKEN);
    buf.push(NOT_TAKEN);
    buf.push(TAKEN); // one block spanning all three units
    buf.push(TAKEN); // block at 0x1000 alone
    let trace = mk_trace(buf, image);
    let got = collect(&trace);
    assert_eq!(
        got,
        vec![Ok(Block::new(0x1000, 0x1030)), Ok(Block::new(0x1000, 0x1010))]
    );
    for item in &got {
        let block = item.as_ref().unwrap();
        assert!(block.first_instr() <= block.last_instr());
    }
}

#[test]
fn test_decode_all_matches_lazy_iteration() {
    let image = vec![entry(0x10, 0x18, 0x19, 0x10)];
    let mut buf = header();
    push_addr_packet(&mut buf, SYNC, 0x10);
    buf.push(TAKEN);
    buf.push(TAKEN);
    buf.push(LOST);
    let trace = mk_trace(buf, image);
    let eager = trace.decode_all();
    assert_eq!(eager, collect(&trace));
    assert_eq!(eager, trace.decode_all());
    assert_eq!(eager.len(), 3);
}

#[test]
fn test_header_only_trace_has_no_items() {
    let trace = mk_trace(header(), Vec::new());
    assert_eq!(collect(&trace), Vec::new());
    assert_eq!(trace.capacity(), 4);
}
