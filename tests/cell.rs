use callback_cell::envelope::{settle, settle_thunk, Envelope};
use callback_cell::slot::Slot;
use callback_cell::{CallbackCell, CallbackCellArgs};
use std::sync::atomic::{AtomicUsize, Ordering};
use std::sync::Arc;

/// Counts, through a shared counter, how many times it is dropped.
struct DropCounter(Arc<AtomicUsize>);

impl Drop for DropCounter {
    fn drop(&mut self) {
        self.0.fetch_add(1, Ordering::SeqCst);
    }
}

fn counter() -> Arc<AtomicUsize> {
    Arc::new(AtomicUsize::new(0))
}

fn load(c: &Arc<AtomicUsize>) -> usize {
    c.load(Ordering::SeqCst)
}

/// An action that records that it ran; `drops` counts when its capture goes.
fn marked(runs: &Arc<AtomicUsize>, drops: &Arc<AtomicUsize>) -> impl FnOnce() + Send + 'static {
    let runs = runs.clone();
    let guard = DropCounter(drops.clone());
    move || {
        let _keep = &guard;
        runs.fetch_add(1, Ordering::SeqCst);
    }
}

fn assert_send_sync<T: Send + Sync>() {}

#[test]
fn cells_are_send_and_sync() {
    assert_send_sync::<CallbackCell>();
    assert_send_sync::<CallbackCellArgs<String, Vec<u8>>>();
}

#[test]
fn round_trip_runs_once() {
    let runs = counter();
    let drops = counter();
    let cell = CallbackCell::new();
    cell.put(marked(&runs, &drops));
    assert!(cell.take_call());
    assert_eq!(load(&runs), 1);
    assert_eq!(load(&drops), 1);
    assert!(!cell.take_call());
    assert_eq!(load(&runs), 1);
}

#[test]
fn round_trip_with_args() {
    let cell: CallbackCellArgs<i32, i32> = CallbackCellArgs::new();
    cell.put(|x: i32| x * 2);
    assert_eq!(cell.take_call(21), Ok(42));
    assert_eq!(cell.take_call(5), Err(5));
}

#[test]
fn take_on_fresh_cell_is_absent() {
    let cell = CallbackCell::new();
    assert!(!cell.take_call());
    let cell_default = CallbackCell::default();
    assert!(!cell_default.take_call());
}

#[test]
fn take_on_fresh_args_cell_returns_input() {
    let cell: CallbackCellArgs<String, usize> = CallbackCellArgs::new();
    assert_eq!(cell.take_call(String::from("unchanged")), Err(String::from("unchanged")));
    let cell_default: CallbackCellArgs<Vec<u8>, ()> = CallbackCellArgs::default();
    assert_eq!(cell_default.take_call(vec![1, 2, 3]), Err(vec![1, 2, 3]));
}

#[test]
fn input_is_consumed_by_the_action() {
    let cell: CallbackCellArgs<String, usize> = CallbackCellArgs::new();
    cell.put(|s: String| s.len());
    assert_eq!(cell.take_call(String::from("four")), Ok(4));
    assert_eq!(cell.take_call(String::from("four")), Err(String::from("four")));
}

#[test]
fn replacement_disposes_the_first_action() {
    let runs1 = counter();
    let drops1 = counter();
    let runs2 = counter();
    let drops2 = counter();
    let cell = CallbackCell::new();
    cell.put(marked(&runs1, &drops1));
    cell.put(marked(&runs2, &drops2));
    assert_eq!(load(&runs1), 0);
    assert_eq!(load(&drops1), 1);
    assert_eq!(load(&drops2), 0);
    assert!(cell.take_call());
    assert_eq!(load(&runs1), 0);
    assert_eq!(load(&runs2), 1);
    assert_eq!(load(&drops2), 1);
}

#[test]
fn replacement_with_args_runs_the_second_action() {
    let drops = counter();
    let guard = DropCounter(drops.clone());
    let cell: CallbackCellArgs<u32, u32> = CallbackCellArgs::new();
    cell.put(move |x: u32| {
        let _keep = &guard;
        x + 1
    });
    cell.put(|x: u32| x + 100);
    assert_eq!(load(&drops), 1);
    assert_eq!(cell.take_call(1), Ok(101));
}

#[test]
fn drop_disposes_pending_action() {
    let runs = counter();
    let drops = counter();
    let cell = CallbackCell::new();
    cell.put(marked(&runs, &drops));
    assert_eq!(load(&drops), 0);
    drop(cell);
    assert_eq!(load(&runs), 0);
    assert_eq!(load(&drops), 1);
}

#[test]
fn drop_disposes_pending_action_with_args() {
    let drops = counter();
    let guard = DropCounter(drops.clone());
    let cell: CallbackCellArgs<u8, u8> = CallbackCellArgs::new();
    cell.put(move |x: u8| {
        let _keep = &guard;
        x
    });
    drop(cell);
    assert_eq!(load(&drops), 1);
}

#[test]
fn many_cycles_free_every_action() {
    let runs = counter();
    let drops = counter();
    let cell = CallbackCell::new();
    for _ in 0..10_000 {
        cell.put(marked(&runs, &drops));
        assert!(cell.take_call());
    }
    assert_eq!(load(&runs), 10_000);
    assert_eq!(load(&drops), 10_000);
    assert!(!cell.take_call());
}

#[test]
fn every_put_is_run_or_disposed_once() {
    let runs = counter();
    let drops = counter();
    let cell = CallbackCell::new();
    let n: usize = 25;
    for _ in 0..n {
        cell.put(marked(&runs, &drops));
    }
    assert!(cell.take_call());
    drop(cell);
    assert_eq!(load(&runs), 1);
    assert_eq!(load(&drops), n);
}

#[test]
fn one_pending_action_is_claimed_by_one_take() {
    let cell: CallbackCellArgs<i64, i64> = CallbackCellArgs::new();
    cell.put(|x: i64| -x);
    let results: Vec<Result<i64, i64>> = (0..8).map(|i| cell.take_call(i)).collect();
    assert_eq!(results.iter().filter(|r| r.is_ok()).count(), 1);
    assert_eq!(results[0], Ok(0));
    for (i, r) in results.iter().enumerate().skip(1) {
        assert_eq!(*r, Err(i as i64));
    }
}

#[test]
fn occupancy_snapshot() {
    let cell = CallbackCell::new();
    assert!(!cell.is_occupied());
    cell.put(|| {});
    assert!(cell.is_occupied());
    assert!(cell.take_call());
    assert!(!cell.is_occupied());
    let cell_args: CallbackCellArgs<u8, u8> = CallbackCellArgs::new();
    assert!(!cell_args.is_occupied());
    cell_args.put(|x: u8| x);
    assert!(cell_args.is_occupied());
}

#[test]
fn slot_exchange_hands_out_previous_value() {
    let slot: Slot<u32> = Slot::new();
    assert!(!slot.is_occupied());
    assert_eq!(slot.exchange(Some(1)), None);
    assert_eq!(slot.exchange(Some(2)), Some(1));
    assert!(slot.is_occupied());
    assert_eq!(slot.exchange(None), Some(2));
    assert_eq!(slot.exchange(None), None);
}

#[test]
fn settle_runs_or_hands_back() {
    let e: Envelope<u32, u32> = Envelope::new(|x: u32| x * 3);
    assert_eq!(settle(Some(e), 7), Ok(21));
    assert_eq!(settle::<u32, u32>(None, 7), Err(7));
}

#[test]
fn settle_thunk_reports_presence() {
    let runs = counter();
    let drops = counter();
    assert!(settle_thunk(Some(Envelope::from_thunk(marked(&runs, &drops)))));
    assert_eq!(load(&runs), 1);
    assert!(!settle_thunk(None));
    assert_eq!(load(&runs), 1);
}

#[test]
fn envelope_run_and_drop() {
    let e: Envelope<String, String> = Envelope::new(|s: String| s + "!");
    assert_eq!(e.run(String::from("hi")), "hi!");
    let drops = counter();
    let guard = DropCounter(drops.clone());
    let unused: Envelope<(), ()> = Envelope::from_thunk(move || {
        let _keep = &guard;
    });
    drop(unused);
    assert_eq!(load(&drops), 1);
}

#[test]
fn debug_text_shows_occupancy() {
    let cell = CallbackCell::new();
    assert_eq!(cell.debug_text(), "CallbackCell(NULL)");
    cell.put(|| {});
    assert_eq!(cell.debug_text(), "CallbackCell(NOT NULL)");
    let cell_args: CallbackCellArgs<u8, u8> = CallbackCellArgs::new();
    assert_eq!(cell_args.debug_text(), "CallbackCellArgs(NULL)");
    cell_args.put(|x: u8| x);
    assert_eq!(cell_args.debug_text(), "CallbackCellArgs(NOT NULL)");
    assert_eq!(CallbackCell::debug_text_for(true), "CallbackCell(NOT NULL)");
    assert_eq!(CallbackCellArgs::<u8, u8>::debug_text_for(false), "CallbackCellArgs(NULL)");
}
