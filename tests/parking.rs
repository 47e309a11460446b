use std::cell::RefCell;
use std::rc::Rc;

use asyncify_linker::admin::AdminCall;
use asyncify_linker::error::HOST_FUTURE_TRAP;
use asyncify_linker::parked::{sync_outcome, Entry, HostPoll, ParkedFutures};
use asyncify_linker::value::WasmVal;

/// Stands for a host future; records its label when dropped.
struct Probe {
    label: u32,
    dropped: Rc<RefCell<Vec<u32>>>,
}

impl Drop for Probe {
    fn drop(&mut self) {
        self.dropped.borrow_mut().push(self.label);
    }
}

fn probe(label: u32, log: &Rc<RefCell<Vec<u32>>>) -> Probe {
    Probe { label, dropped: log.clone() }
}

fn resumed_label<T: Copy>(e: Entry<T>) -> T {
    match e {
        Entry::Resumed(f) => f,
        _ => panic!("expected a parked future"),
    }
}

#[test]
fn fresh_entry_when_normal() {
    let mut parked: ParkedFutures<u32> = ParkedFutures::new();
    assert!(matches!(parked.enter(true), Entry::Fresh));
    parked.settle(1, HostPoll::Pending, 0);
    assert!(matches!(parked.enter(true), Entry::Fresh));
    assert_eq!(parked.depth(), 1);
}

#[test]
fn rewinding_with_nothing_parked_is_orphaned() {
    let mut parked: ParkedFutures<u32> = ParkedFutures::new();
    assert!(matches!(parked.enter(false), Entry::Orphaned));
    assert!(parked.is_empty());
}

#[test]
fn ready_poll_writes_results_and_stops_unwinding() {
    let mut parked: ParkedFutures<u32> = ParkedFutures::new();
    let step = parked.settle(7, HostPoll::Ready(vec![WasmVal::I32(3), WasmVal::F32(9)]), 2);
    assert_eq!(step.code, 0);
    assert_eq!(step.results, vec![WasmVal::I32(3), WasmVal::F32(9)]);
    assert_eq!(step.admin, AdminCall::StopUnwind);
    assert!(parked.is_empty());
}

#[test]
fn failed_poll_traps_with_host_code() {
    let mut parked: ParkedFutures<u32> = ParkedFutures::new();
    let step = parked.settle(7, HostPoll::Failed, 1);
    assert_eq!(step.code, HOST_FUTURE_TRAP);
    assert_eq!(step.code, 64);
    assert!(step.results.is_empty());
    assert_eq!(step.admin, AdminCall::StopUnwind);
    assert!(parked.is_empty());
}

#[test]
fn pending_poll_parks_and_unwinds() {
    let mut parked: ParkedFutures<u32> = ParkedFutures::new();
    let step = parked.settle(7, HostPoll::Pending, 0);
    assert_eq!(step.code, 0);
    assert!(step.results.is_empty());
    assert_eq!(step.admin, AdminCall::StartUnwind);
    assert_eq!(parked.depth(), 1);
}

#[test]
fn single_sleep_parks_then_resumes() {
    let mut parked: ParkedFutures<&str> = ParkedFutures::new();
    // first poll: fresh entry, the timer is not done
    assert!(matches!(parked.enter(true), Entry::Fresh));
    assert_eq!(parked.settle("sleep", HostPoll::Pending, 0).admin, AdminCall::StartUnwind);
    assert_eq!(parked.depth(), 1);
    // second poll: the guest rewinds into the same frame
    let fut = resumed_label(parked.enter(false));
    assert_eq!(fut, "sleep");
    let step = parked.settle(fut, HostPoll::Ready(vec![]), 0);
    assert_eq!(step.admin, AdminCall::StopUnwind);
    assert!(parked.is_empty());
}

#[test]
fn nested_sleeps_reach_depth_two_and_resume_outer_first() {
    let mut parked: ParkedFutures<&str> = ParkedFutures::new();
    // `sleep` re-enters the guest, whose `sleep1` pends first, then `sleep` pends
    assert!(matches!(parked.enter(true), Entry::Fresh));
    assert!(matches!(parked.enter(true), Entry::Fresh));
    parked.settle("sleep1", HostPoll::Pending, 0);
    parked.settle("sleep", HostPoll::Pending, 0);
    assert_eq!(parked.depth(), 2);
    // on rewind the guest re-enters `sleep` first, which re-enters `sleep1`
    assert_eq!(resumed_label(parked.enter(false)), "sleep");
    assert_eq!(resumed_label(parked.enter(false)), "sleep1");
    assert!(parked.is_empty());
}

#[test]
fn resumption_is_lifo() {
    let mut parked: ParkedFutures<u32> = ParkedFutures::new();
    for f in [1, 2, 3] {
        parked.settle(f, HostPoll::Pending, 0);
    }
    let order: Vec<u32> = (0..3).map(|_| resumed_label(parked.enter(false))).collect();
    assert_eq!(order, vec![3, 2, 1]);
    assert_eq!(parked.depth(), 0);
}

#[test]
fn depth_counts_suspended_frames() {
    let mut parked: ParkedFutures<u32> = ParkedFutures::new();
    parked.settle(1, HostPoll::Pending, 0);
    parked.settle(2, HostPoll::Pending, 0);
    assert_eq!(parked.depth(), 2);
    let f = resumed_label(parked.enter(false));
    assert_eq!(parked.depth(), 1);
    parked.settle(f, HostPoll::Pending, 0);
    assert_eq!(parked.depth(), 2);
    let f = resumed_label(parked.enter(false));
    parked.settle(f, HostPoll::Ready(vec![]), 0);
    assert_eq!(parked.depth(), 1);
}

#[test]
fn balanced_run_is_quiescent() {
    let mut parked: ParkedFutures<u32> = ParkedFutures::new();
    parked.settle(1, HostPoll::Pending, 0);
    parked.settle(2, HostPoll::Pending, 0);
    let a = resumed_label(parked.enter(false));
    parked.settle(a, HostPoll::Ready(vec![]), 0);
    let b = resumed_label(parked.enter(false));
    parked.settle(b, HostPoll::Ready(vec![]), 0);
    assert!(parked.is_empty());
}

#[test]
fn drain_drops_each_future_once_in_lifo_order() {
    let log = Rc::new(RefCell::new(Vec::new()));
    let mut parked = ParkedFutures::new();
    for label in [10, 20, 30] {
        parked.settle(probe(label, &log), HostPoll::Pending, 0);
    }
    let drained = parked.drain_lifo();
    assert!(parked.is_empty());
    assert!(log.borrow().is_empty());
    drop(drained);
    assert_eq!(*log.borrow(), vec![30, 20, 10]);
}

#[test]
fn drain_of_empty_stack_is_empty() {
    let mut parked: ParkedFutures<u32> = ParkedFutures::new();
    assert!(parked.drain_lifo().is_empty());
}

#[test]
fn settled_future_is_dropped_unless_pending() {
    let log = Rc::new(RefCell::new(Vec::new()));
    let mut parked = ParkedFutures::new();
    parked.settle(probe(1, &log), HostPoll::Ready(vec![]), 0);
    parked.settle(probe(2, &log), HostPoll::Failed, 0);
    parked.settle(probe(3, &log), HostPoll::Pending, 0);
    assert_eq!(*log.borrow(), vec![1, 2]);
    assert_eq!(parked.depth(), 1);
}

#[test]
fn sync_results_pass_through_with_status_zero() {
    let (code, results) = sync_outcome(Ok(vec![WasmVal::I32(4)]), 1);
    assert_eq!(code, 0);
    assert_eq!(results, vec![WasmVal::I32(4)]);
}

#[test]
fn sync_error_code_becomes_trap_code() {
    let (code, results) = sync_outcome(Err(7), 1);
    assert_eq!(code, 7);
    assert!(results.is_empty());
    assert_eq!(sync_outcome(Err(255), 0).0, 255);
}
