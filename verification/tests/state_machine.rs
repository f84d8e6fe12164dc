//! Lifecycle tests for the collection state machine.

use hwtracer::backends::{Availability, MemThreadTracer, MemTracer};
use hwtracer::errors::{ConfigKind, HWTracerError};
use hwtracer::{Block, ThreadTracer, Tracer, TracerState};

fn mk_tracer(bytes: Vec<u8>, buf_size: usize, availability: Availability) -> MemThreadTracer {
    MemTracer::new(bytes, Vec::new(), buf_size, availability).thread_tracer()
}

// A loop that stands in for traced work.
fn work_loop(iters: u64) -> u64 {
    let mut res: u64 = 0;
    for i in 0..iters {
        res = res.wrapping_add(i ^ 0x5a5a_5a5a_5a5a_5a5a);
    }
    res
}

// Trace a closure that returns a u64.
fn trace_closure<F>(tracer: &mut MemThreadTracer, f: F) -> hwtracer::Trace
where
    F: FnOnce() -> u64,
{
    tracer.start_tracing().unwrap();
    let res = f();
    let trace = tracer.stop_tracing().unwrap();
    println!("traced closure with result: {}", res);
    trace
}

#[test]
fn test_not_started() {
    let mut tracer = mk_tracer(vec![1, 2, 3], 64, Availability::Available);
    match tracer.stop_tracing() {
        Err(HWTracerError::TracerState(TracerState::Stopped)) => (),
        _ => panic!(),
    }
    // The failed stop left the state Stopped: stopping again fails the same
    // way, and a start still succeeds.
    match tracer.stop_tracing() {
        Err(HWTracerError::TracerState(TracerState::Stopped)) => (),
        _ => panic!(),
    }
    assert!(tracer.start_tracing().is_ok());
}

#[test]
fn test_already_started() {
    let mut tracer = mk_tracer(vec![1, 2, 3], 64, Availability::Available);
    tracer.start_tracing().unwrap();
    match tracer.start_tracing() {
        Err(HWTracerError::TracerState(TracerState::Started)) => (),
        _ => panic!(),
    }
    // The in-flight collection was not altered: the stop still drains the
    // full capture.
    let trace = tracer.stop_tracing().unwrap();
    assert_eq!(trace.capacity(), 3);
}

#[test]
fn test_basic_usage() {
    let mut tracer = mk_tracer(vec![9; 128], 256, Availability::Available);
    let trace = trace_closure(&mut tracer, || work_loop(500));
    // The workload ran at least one instruction, so the capture is
    // non-trivial.
    assert!(trace.capacity() > 0);
    assert!(!trace.overflowed());
}

#[test]
fn test_repeated_tracing() {
    let mut tracer = mk_tracer(vec![7; 32], 64, Availability::Available);
    for _ in 0..10 {
        let trace = trace_closure(&mut tracer, || work_loop(500));
        assert_eq!(trace.capacity(), 32);
    }
}

#[test]
fn test_trace_repeatedly_law() {
    let mut tracer = mk_tracer(vec![7; 32], 64, Availability::Available);
    let traces = tracer.trace_repeatedly(10);
    assert_eq!(traces.len(), 10);
    for trace in &traces {
        assert_eq!(trace.capacity(), 32);
        assert!(!trace.overflowed());
    }
    // The collector is back in Stopped and still usable.
    assert!(tracer.start_tracing().is_ok());
    assert!(tracer.stop_tracing().is_ok());
}

#[test]
fn test_no_hardware_support() {
    let mut tracer = mk_tracer(vec![1], 64, Availability::NoHardware);
    match tracer.start_tracing() {
        Err(HWTracerError::NoHardwareSupport) => (),
        _ => panic!(),
    }
    // The tracer was not left armed.
    match tracer.stop_tracing() {
        Err(HWTracerError::TracerState(TracerState::Stopped)) => (),
        _ => panic!(),
    }
}

#[test]
fn test_permission_denied() {
    let mut tracer = mk_tracer(vec![1], 64, Availability::AccessDenied);
    match tracer.start_tracing() {
        Err(HWTracerError::PermissionDenied) => (),
        _ => panic!(),
    }
}

#[test]
fn test_zero_sized_buffer_rejected() {
    let mut tracer = mk_tracer(vec![1], 0, Availability::Available);
    match tracer.start_tracing() {
        Err(HWTracerError::BackendConfiguration(ConfigKind::ZeroSizedBuffer)) => (),
        _ => panic!(),
    }
}

#[test]
fn test_overflow_truncates_capture() {
    let mut tracer = mk_tracer(vec![5; 10], 4, Availability::Available);
    let trace = trace_closure(&mut tracer, || work_loop(1));
    assert_eq!(trace.capacity(), 4);
    assert!(trace.overflowed());
    assert_eq!(trace.as_bytes(), &vec![5; 4]);
}

#[test]
fn test_exact_fit_is_not_overflow() {
    let mut tracer = mk_tracer(vec![5; 4], 4, Availability::Available);
    let trace = trace_closure(&mut tracer, || work_loop(1));
    assert_eq!(trace.capacity(), 4);
    assert!(!trace.overflowed());
}

#[test]
fn test_tracer_state_as_error() {
    assert_eq!(
        TracerState::Stopped.as_error(),
        HWTracerError::TracerState(TracerState::Stopped)
    );
    assert_eq!(
        TracerState::Started.as_error(),
        HWTracerError::TracerState(TracerState::Started)
    );
}

#[test]
fn test_tracer_state_name() {
    assert_eq!(TracerState::Started.name(), "started");
    assert_eq!(TracerState::Stopped.name(), "stopped");
}

#[test]
fn test_block_accessors() {
    let block = Block::new(0x1000, 0x1010);
    assert_eq!(block.first_instr(), 0x1000);
    assert_eq!(block.last_instr(), 0x1010);
    assert_eq!(block, Block::new(0x1000, 0x1010));
}
