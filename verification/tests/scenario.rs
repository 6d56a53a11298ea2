use std::sync::atomic::{AtomicU64, Ordering};
use std::sync::Arc;
use taskshare::container::{AccessOutcome, SharedContainer};
use taskshare::coordinator::{run_counter_scenario, Outcome, TaskCoordinator, WorkHandle};

#[test]
fn ten_workers_count_to_ten() {
    let (outcomes, value) = run_counter_scenario(10);
    assert_eq!(outcomes.len(), 10);
    for out in &outcomes {
        assert_eq!(*out, Outcome::Completed(AccessOutcome::Applied));
    }
    assert_eq!(value, Ok(10));
}

#[test]
fn no_workers_leave_the_counter_at_zero() {
    let (outcomes, value) = run_counter_scenario(0);
    assert_eq!(outcomes.len(), 0);
    assert_eq!(value, Ok(0));
}

#[test]
fn one_worker_counts_to_one() {
    let (outcomes, value) = run_counter_scenario(1);
    assert_eq!(outcomes.len(), 1);
    assert_eq!(value, Ok(1));
}

#[test]
fn twenty_five_workers_count_to_twenty_five() {
    let (_outcomes, value) = run_counter_scenario(25);
    assert_eq!(value, Ok(25));
}

#[test]
fn no_update_is_lost_under_heavy_interleaving() {
    let coordinator = TaskCoordinator::new();
    let counter = SharedContainer::create(0u64);
    let mut handles: Vec<WorkHandle<u64>> = Vec::new();
    let workers: u64 = 4;
    let rounds: u64 = 250;
    for _ in 0..workers {
        let handle = counter.clone_handle();
        handles.push(coordinator.spawn(move || {
            let mut applied: u64 = 0;
            for _ in 0..rounds {
                let out = handle.with_exclusive_access(|v: u64| Ok::<u64, u8>(v + 1));
                if out == AccessOutcome::Applied {
                    applied += 1;
                }
            }
            applied
        }));
    }
    let outs = coordinator.join_all(&mut handles);
    for out in &outs {
        assert_eq!(*out, Outcome::Completed(rounds));
    }
    assert_eq!(counter.read_unsynchronized(), Ok(workers * rounds));
}

#[test]
fn two_appenders_never_interleave_bytes() {
    let coordinator = TaskCoordinator::new();
    let text = SharedContainer::create(String::from("seed"));
    let a = text.clone_handle();
    let b = text.clone_handle();
    let mut ha = coordinator.spawn(move || {
        a.with_exclusive_access(|s: String| {
            let mut t = s;
            t.push_str("-a");
            Ok::<String, u8>(t)
        })
    });
    let mut hb = coordinator.spawn(move || {
        b.with_exclusive_access(|s: String| {
            let mut t = s;
            t.push_str("-b");
            Ok::<String, u8>(t)
        })
    });
    assert_eq!(coordinator.join(&mut ha), Outcome::Completed(AccessOutcome::Applied));
    assert_eq!(coordinator.join(&mut hb), Outcome::Completed(AccessOutcome::Applied));
    let value = text.read_unsynchronized().unwrap();
    assert!(value == "seed-a-b" || value == "seed-b-a");
}

#[test]
fn instrumented_critical_sections_never_overlap() {
    let coordinator = TaskCoordinator::new();
    let counter = SharedContainer::create(0u64);
    let inside = Arc::new(AtomicU64::new(0));
    let overlaps = Arc::new(AtomicU64::new(0));
    let mut handles: Vec<WorkHandle<u64>> = Vec::new();
    let workers: u64 = 4;
    let rounds: u64 = 200;
    for _ in 0..workers {
        let handle = counter.clone_handle();
        let entered = Arc::clone(&inside);
        let seen = Arc::clone(&overlaps);
        handles.push(coordinator.spawn(move || {
            for _ in 0..rounds {
                handle.with_exclusive_access(|v: u64| {
                    // Entering the critical section: anyone already inside
                    // would be an overlap.
                    if entered.fetch_add(1, Ordering::SeqCst) != 0 {
                        seen.fetch_add(1, Ordering::SeqCst);
                    }
                    // Stay inside for a while to widen any race window.
                    let mut spin: u64 = 0;
                    while spin < 500 {
                        spin += 1;
                    }
                    // Leaving the critical section.
                    entered.fetch_sub(1, Ordering::SeqCst);
                    Ok::<u64, u8>(v + 1)
                });
            }
            0u64
        }));
    }
    let outs = coordinator.join_all(&mut handles);
    for out in &outs {
        assert_eq!(*out, Outcome::Completed(0));
    }
    assert_eq!(overlaps.load(Ordering::SeqCst), 0);
    assert_eq!(counter.read_unsynchronized(), Ok(workers * rounds));
}
