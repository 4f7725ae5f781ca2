use fibers::sync::oneshot::Monitor;
use fibers::{Executor, Spawn, ThreadPoolExecutor};
use fibers_global::bridge::{poll_step, BridgeStep};
use fibers_global::gate::SharedGate;
use futures::lazy;
use std::sync::Arc;

fn wait_for<T>(executor: &mut ThreadPoolExecutor, mut monitor: Monitor<T, ()>) -> T {
    loop {
        match poll_step(&mut monitor) {
            BridgeStep::Finish(result) => return result.unwrap(),
            BridgeStep::Wait(_) => executor.run_once().unwrap(),
            BridgeStep::Abort => panic!("the executor aborted"),
        }
    }
}

fn request_on_fibers(
    executor: &mut ThreadPoolExecutor,
    gate: &Arc<SharedGate>,
    counts: std::ops::RangeInclusive<usize>,
) -> Vec<bool> {
    let handle = executor.handle();
    let monitors: Vec<Monitor<bool, ()>> = counts
        .map(|n| {
            let gate = Arc::clone(gate);
            handle.spawn_monitor(lazy(move || Ok(gate.request(n))))
        })
        .collect();
    monitors.into_iter().map(|monitor| wait_for(executor, monitor)).collect()
}

#[test]
fn concurrent_requests_before_freeze_are_all_accepted() {
    let gate = Arc::new(SharedGate::new());
    let mut executor = ThreadPoolExecutor::with_thread_count(4).unwrap();
    let answers = request_on_fibers(&mut executor, &gate, 1..=32);
    assert_eq!(answers, vec![true; 32]);
    let count = gate.freeze();
    assert!((1..=32).contains(&count));
}

#[test]
fn concurrent_requests_after_freeze_are_all_refused() {
    let gate = Arc::new(SharedGate::new());
    assert!(gate.request(3));
    assert_eq!(gate.freeze(), 3);
    let mut executor = ThreadPoolExecutor::with_thread_count(4).unwrap();
    let answers = request_on_fibers(&mut executor, &gate, 1..=32);
    assert_eq!(answers, vec![false; 32]);
}

#[test]
fn freeze_among_concurrent_requests_finds_an_accepted_one() {
    let gate = Arc::new(SharedGate::new());
    let mut executor = ThreadPoolExecutor::with_thread_count(4).unwrap();
    let handle = executor.handle();
    let early: Vec<Monitor<bool, ()>> = (1..=16usize)
        .map(|n| {
            let gate = Arc::clone(&gate);
            handle.spawn_monitor(lazy(move || Ok(gate.request(n))))
        })
        .collect();
    let freezer: Monitor<usize, ()> = {
        let gate = Arc::clone(&gate);
        handle.spawn_monitor(lazy(move || Ok(gate.freeze())))
    };
    let late: Vec<Monitor<bool, ()>> = (17..=32usize)
        .map(|n| {
            let gate = Arc::clone(&gate);
            handle.spawn_monitor(lazy(move || Ok(gate.request(n))))
        })
        .collect();

    let count = wait_for(&mut executor, freezer);
    let mut accepted: Vec<usize> = Vec::new();
    for (n, monitor) in (1..=32usize).zip(early.into_iter().chain(late)) {
        if wait_for(&mut executor, monitor) {
            accepted.push(n);
        }
    }
    if accepted.is_empty() {
        assert_eq!(count, num_cpus::get());
    } else {
        assert!(accepted.contains(&count));
    }
    assert!(!gate.request(5));
}
