use std::collections::HashSet;
use std::hash::Hash;
use std::sync::{Barrier, Mutex};

use crossbeam_utils::thread;
use portable_atomic::AtomicU64;
use threadid::counter::FIRST_ID;
use threadid::live::{LiveLocal, ThreadIdAllocator};
use threadid::locals::CacheSlot;
use threadid::{IThreadId, LiveThreadId, UniqueThreadId};

/// What one thread keeps: the per-thread state of every strategy.
struct Locals {
    unique: CacheSlot<UniqueThreadId>,
    live: LiveLocal,
}

impl Locals {
    fn new() -> Self {
        Locals { unique: CacheSlot::new(), live: LiveLocal::new() }
    }
}

/// What all threads share.
struct Process {
    counter: &'static AtomicU64,
    allocator: Mutex<Option<ThreadIdAllocator>>,
}

impl Process {
    fn new() -> Self {
        Process { counter: Box::leak(Box::new(AtomicU64::new(FIRST_ID))), allocator: Mutex::new(None) }
    }

    fn unique(&self, locals: &mut Locals) -> UniqueThreadId {
        let mut counter = self.counter;
        threadid::current::<UniqueThreadId>(&mut locals.unique, &mut counter).unwrap()
    }

    fn live(&self, locals: &mut Locals) -> LiveThreadId {
        if let Some(id) = locals.live.cached() {
            return id;
        }
        let mut shared = self.allocator.lock().unwrap();
        assert_eq!(locals.live.refusal(&shared), None);
        threadid::current::<LiveThreadId>(&mut locals.live, &mut shared).unwrap()
    }

    fn exit(&self, mut locals: Locals) {
        let mut shared = self.allocator.lock().unwrap();
        locals.live.teardown(&mut shared);
    }
}

fn add_new<T: Copy + Eq + Hash + std::fmt::Debug>(lock: &Mutex<HashSet<T>>, id: T) {
    assert!(lock.lock().unwrap().insert(id), "unexpected reuse of {id:?}");
}

#[test]
fn death_reuse() {
    let process = Process::new();
    let seen_unique_ids = Mutex::new(HashSet::<UniqueThreadId>::new());
    let seen_live_ids = Mutex::new(HashSet::<LiveThreadId>::new());
    let mut main_locals = Locals::new();
    add_new(&seen_unique_ids, process.unique(&mut main_locals));
    add_new(&seen_live_ids, process.live(&mut main_locals));
    {
        let start = Barrier::new(2);
        let end = Barrier::new(2);
        thread::scope(|scope| {
            let t1 = scope.spawn(|_scope| {
                let mut locals = Locals::new();
                start.wait();
                add_new(&seen_unique_ids, process.unique(&mut locals));
                add_new(&seen_live_ids, process.live(&mut locals));
                end.wait();
                process.exit(locals);
            });
            let t2 = scope.spawn(|_scope| {
                let mut locals = Locals::new();
                start.wait();
                add_new(&seen_unique_ids, process.unique(&mut locals));
                add_new(&seen_live_ids, process.live(&mut locals));
                end.wait();
                process.exit(locals);
            });
            t1.join().unwrap();
            t2.join().unwrap();
        })
        .unwrap();
    }
    // above threads have died
    thread::scope(|scope| {
        scope
            .spawn(|_scope| {
                let mut locals = Locals::new();
                add_new(&seen_unique_ids, process.unique(&mut locals));
                let live_id: LiveThreadId = process.live(&mut locals);
                assert!(seen_live_ids.lock().unwrap().contains(&live_id));
                process.exit(locals);
            })
            .join()
            .unwrap();
    })
    .unwrap();
}

#[test]
fn first_live_identifier_is_zero() {
    let mut shared: Option<ThreadIdAllocator> = None;
    let mut local = LiveLocal::new();
    let id = LiveThreadId::current(&mut local, &mut shared);
    assert_eq!(id.to_int(), 0);
    assert_eq!(<LiveThreadId as IThreadId>::current(&mut local, &mut shared), Ok(id));
    let mut other = LiveLocal::new();
    let next = threadid::current::<LiveThreadId>(&mut other, &mut shared).unwrap();
    assert_eq!(next.to_int(), 1);
}

#[test]
fn threads_started_together_get_different_identifiers() {
    const THREADS: usize = 16;
    let process = Process::new();
    let seen_unique_ids = Mutex::new(HashSet::<UniqueThreadId>::new());
    let seen_live_ids = Mutex::new(HashSet::<LiveThreadId>::new());
    let start = Barrier::new(THREADS);
    let end = Barrier::new(THREADS);
    thread::scope(|scope| {
        for _ in 0..THREADS {
            scope.spawn(|_scope| {
                let mut locals = Locals::new();
                start.wait();
                add_new(&seen_unique_ids, process.unique(&mut locals));
                add_new(&seen_live_ids, process.live(&mut locals));
                end.wait();
                process.exit(locals);
            });
        }
    })
    .unwrap();
    let live: HashSet<usize> = seen_live_ids.lock().unwrap().iter().map(|id| id.to_int()).collect();
    assert_eq!(live, (0..THREADS).collect::<HashSet<usize>>());
    let unique: HashSet<u64> =
        seen_unique_ids.lock().unwrap().iter().map(|id| id.to_int()).collect();
    assert_eq!(unique, (1..=THREADS as u64).collect::<HashSet<u64>>());
}

#[test]
fn dead_threads_keep_their_unique_identifiers() {
    let process = Process::new();
    let mut seen = HashSet::new();
    for _ in 0..10 {
        let mut locals = Locals::new();
        assert!(seen.insert(process.unique(&mut locals)));
        assert_eq!(process.live(&mut locals).to_int(), 0);
        process.exit(locals);
    }
    assert_eq!(seen.len(), 10);
}

#[test]
fn every_strategy_repeats_its_answer() {
    let process = Process::new();
    let mut locals = Locals::new();
    let unique = process.unique(&mut locals);
    let live = process.live(&mut locals);
    let mut other = Locals::new();
    let other_unique = process.unique(&mut other);
    let other_live = process.live(&mut other);
    for _ in 0..5 {
        assert_eq!(process.unique(&mut locals), unique);
        assert_eq!(process.live(&mut locals), live);
        assert_eq!(process.unique(&mut other), other_unique);
        assert_eq!(process.live(&mut other), other_live);
    }
    let mut platform: CacheSlot<u32> = CacheSlot::new();
    let mut lookups = 0;
    for _ in 0..5 {
        let id = platform.get_or_insert_with(|| {
            lookups += 1;
            77
        });
        assert_eq!(id, 77);
    }
    assert_eq!(lookups, 1);
}

#[test]
fn strategies_do_not_disturb_each_other() {
    let alone = Process::new();
    let mut live_alone = Vec::new();
    let mut held = Vec::new();
    for round in 0..12 {
        let mut locals = Locals::new();
        live_alone.push(alone.live(&mut locals).to_int());
        if round % 3 == 0 {
            alone.exit(locals);
        } else {
            held.push(locals);
        }
    }
    let unique_alone: Vec<u64> =
        (0..12).map(|_| alone.unique(&mut Locals::new()).to_int()).collect();

    let mixed = Process::new();
    let mut live_mixed = Vec::new();
    let mut unique_mixed = Vec::new();
    let mut held = Vec::new();
    for round in 0..12 {
        let mut locals = Locals::new();
        unique_mixed.push(mixed.unique(&mut Locals::new()).to_int());
        live_mixed.push(mixed.live(&mut locals).to_int());
        if round % 3 == 0 {
            mixed.exit(locals);
        } else {
            held.push(locals);
        }
    }
    assert_eq!(live_mixed, live_alone);
    assert_eq!(unique_mixed, unique_alone);
    assert_eq!(live_alone, vec![0, 0, 1, 2, 2, 3, 4, 4, 5, 6, 6, 7]);
    assert_eq!(unique_alone, (1..=12).collect::<Vec<u64>>());
}

#[test]
fn third_thread_takes_over_from_the_first_two() {
    let process = Process::new();
    let mut main_locals = Locals::new();
    let main_unique = process.unique(&mut main_locals);
    let main_live = process.live(&mut main_locals);
    let reported = Mutex::new(Vec::<(UniqueThreadId, LiveThreadId)>::new());
    let start = Barrier::new(2);
    let end = Barrier::new(2);
    thread::scope(|scope| {
        let handles: Vec<_> = (0..2)
            .map(|_| {
                scope.spawn(|_scope| {
                    let mut locals = Locals::new();
                    start.wait();
                    let ids = (process.unique(&mut locals), process.live(&mut locals));
                    reported.lock().unwrap().push(ids);
                    end.wait();
                    process.exit(locals);
                })
            })
            .collect();
        for handle in handles {
            handle.join().unwrap();
        }
    })
    .unwrap();
    let reported = reported.into_inner().unwrap();
    let (first, second) = (reported[0], reported[1]);
    assert_ne!(first.0, second.0);
    assert_ne!(first.1, second.1);
    assert!(first.0 != main_unique && second.0 != main_unique);
    assert!(first.1 != main_live && second.1 != main_live);
    let mut third = Locals::new();
    let third_unique = process.unique(&mut third);
    let third_live = process.live(&mut third);
    assert!(third_unique != main_unique && third_unique != first.0 && third_unique != second.0);
    assert!(third_live == first.1 || third_live == second.1);
    assert_eq!(third_live.to_int(), first.1.to_int().min(second.1.to_int()));
    assert_eq!(process.live(&mut main_locals), main_live);
}
