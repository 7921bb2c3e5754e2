use napi::lifecycle::{
    register_releasable, release_entries, release_upgraded, request_shutdown, shutdown_requested,
    signal_shutdown_reentrant, signal_shutdown_requested, Lifecycle, Process, Releasable,
};
use std::sync::atomic::{AtomicBool, Ordering};
use std::sync::{Arc, Mutex, Weak};

struct Resource {
    id: u32,
    released: AtomicBool,
    /// Resources that this one keeps alive until it is released.
    owned: Mutex<Vec<Arc<Resource>>>,
    /// What the shutdown flag read at each release.
    seen: Mutex<Vec<bool>>,
}

fn resource(id: u32) -> Arc<Resource> {
    Arc::new(Resource {
        id,
        released: AtomicBool::new(false),
        owned: Mutex::new(Vec::new()),
        seen: Mutex::new(Vec::new()),
    })
}

struct Strong(Arc<Resource>);

impl Releasable for Strong {
    type Weak = Weak<Resource>;
    type World = Vec<u32>;

    fn upgrade(weak: &Weak<Resource>, _world: &Vec<u32>) -> Option<Self> {
        weak.upgrade().map(Strong)
    }

    fn release_for_shutdown(&self, requested: bool, world: &mut Vec<u32>) {
        self.0.seen.lock().unwrap().push(requested);
        if !self.0.released.swap(true, Ordering::AcqRel) {
            world.push(self.0.id);
            self.0.owned.lock().unwrap().clear();
        }
    }
}

#[test]
fn a_new_lifecycle_is_not_shut_down() {
    let lifecycle: Lifecycle<Weak<Resource>> = Lifecycle::new();
    assert!(!shutdown_requested(&lifecycle));
}

#[test]
fn registration_is_no_signal() {
    let mut lifecycle = Lifecycle::new();
    register_releasable(&mut lifecycle, 1u8);
    assert!(!shutdown_requested(&lifecycle));
}

#[test]
fn a_signal_releases_live_entries_in_order() {
    let (a, b, c) = (resource(1), resource(2), resource(3));
    let mut lifecycle = Lifecycle::new();
    for r in [&c, &a, &b] {
        register_releasable(&mut lifecycle, Arc::downgrade(r));
    }
    let mut world = Vec::new();
    signal_shutdown_requested::<Strong>(&mut lifecycle, &mut world);
    assert_eq!(world, vec![3, 1, 2]);
    assert!(shutdown_requested(&lifecycle));
}

#[test]
fn every_release_sees_the_flag_set() {
    let (a, b) = (resource(1), resource(2));
    let mut lifecycle = Lifecycle::new();
    register_releasable(&mut lifecycle, Arc::downgrade(&a));
    register_releasable(&mut lifecycle, Arc::downgrade(&b));
    signal_shutdown_requested::<Strong>(&mut lifecycle, &mut Vec::new());
    assert_eq!(*a.seen.lock().unwrap(), vec![true]);
    assert_eq!(*b.seen.lock().unwrap(), vec![true]);
}

#[test]
fn dropped_entries_are_passed_over() {
    let (a, b) = (resource(1), resource(2));
    let mut lifecycle = Lifecycle::new();
    register_releasable(&mut lifecycle, Arc::downgrade(&a));
    register_releasable(&mut lifecycle, Arc::downgrade(&b));
    drop(a);
    let mut world = Vec::new();
    signal_shutdown_requested::<Strong>(&mut lifecycle, &mut world);
    assert_eq!(world, vec![2]);
}

#[test]
fn an_entry_that_an_earlier_release_drops_is_passed_over() {
    let (a, b) = (resource(1), resource(2));
    let mut lifecycle = Lifecycle::new();
    register_releasable(&mut lifecycle, Arc::downgrade(&a));
    register_releasable(&mut lifecycle, Arc::downgrade(&b));
    a.owned.lock().unwrap().push(b);
    let mut world = Vec::new();
    signal_shutdown_requested::<Strong>(&mut lifecycle, &mut world);
    assert_eq!(world, vec![1]);
}

#[test]
fn a_second_signal_changes_nothing() {
    let a = resource(1);
    let mut lifecycle = Lifecycle::new();
    register_releasable(&mut lifecycle, Arc::downgrade(&a));
    let mut world = Vec::new();
    signal_shutdown_requested::<Strong>(&mut lifecycle, &mut world);
    signal_shutdown_requested::<Strong>(&mut lifecycle, &mut world);
    assert_eq!(world, vec![1]);
    assert!(shutdown_requested(&lifecycle));
}

#[test]
fn a_released_resource_is_left_alone() {
    let a = resource(1);
    let mut lifecycle = Lifecycle::new();
    register_releasable(&mut lifecycle, Arc::downgrade(&a));
    register_releasable(&mut lifecycle, Arc::downgrade(&a));
    let mut world = Vec::new();
    Strong(Arc::clone(&a)).release_for_shutdown(false, &mut world);
    signal_shutdown_requested::<Strong>(&mut lifecycle, &mut world);
    assert_eq!(world, vec![1]);
}

#[test]
fn the_registry_is_free_while_its_entries_are_walked() {
    let (a, b) = (resource(1), resource(2));
    let mut lifecycle = Lifecycle::new();
    register_releasable(&mut lifecycle, Arc::downgrade(&a));
    let walk = request_shutdown(&mut lifecycle);
    assert!(shutdown_requested(&lifecycle));
    register_releasable(&mut lifecycle, Arc::downgrade(&b));
    let mut world = Vec::new();
    release_entries::<Strong>(walk, &mut world);
    assert_eq!(world, vec![1]);
    signal_shutdown_requested::<Strong>(&mut lifecycle, &mut world);
    assert_eq!(world, vec![1, 2]);
}

#[test]
fn only_a_live_upgrade_is_released() {
    let a = resource(5);
    let mut world = Vec::new();
    release_upgraded::<Strong>(true, None, &mut world);
    assert_eq!(world, Vec::<u32>::new());
    release_upgraded(true, Some(Strong(a)), &mut world);
    assert_eq!(world, vec![5]);
}

/// A resource whose release registers others and then signals once more, if told to.
struct Reentrant {
    id: u32,
    registers: Vec<Arc<Reentrant>>,
    signals: bool,
}

struct ReentrantStrong(Arc<Reentrant>);

impl Releasable for ReentrantStrong {
    type Weak = Weak<Reentrant>;
    type World = Process<Weak<Reentrant>, Vec<u32>>;

    fn upgrade(weak: &Weak<Reentrant>, _world: &Self::World) -> Option<Self> {
        weak.upgrade().map(ReentrantStrong)
    }

    fn release_for_shutdown(&self, _requested: bool, world: &mut Self::World) {
        assert!(shutdown_requested(&world.lifecycle));
        world.rest.push(self.0.id);
        for other in &self.0.registers {
            register_releasable(&mut world.lifecycle, Arc::downgrade(other));
        }
        if self.0.signals {
            signal_shutdown_reentrant::<Weak<Reentrant>, Vec<u32>, ReentrantStrong>(world);
        }
    }
}

fn reentrant(id: u32, registers: Vec<Arc<Reentrant>>, signals: bool) -> Arc<Reentrant> {
    Arc::new(Reentrant {
        id,
        registers,
        signals,
    })
}

fn process(entries: &[&Arc<Reentrant>]) -> Process<Weak<Reentrant>, Vec<u32>> {
    let mut lifecycle = Lifecycle::new();
    for entry in entries {
        register_releasable(&mut lifecycle, Arc::downgrade(entry));
    }
    Process {
        lifecycle,
        rest: Vec::new(),
    }
}

#[test]
fn what_a_release_registers_waits_for_the_next_signal() {
    let late = reentrant(3, Vec::new(), false);
    let first = reentrant(1, vec![late], false);
    let second = reentrant(2, Vec::new(), false);
    let mut process = process(&[&first, &second]);
    signal_shutdown_reentrant::<_, _, ReentrantStrong>(&mut process);
    assert_eq!(process.rest, vec![1, 2]);
    signal_shutdown_reentrant::<_, _, ReentrantStrong>(&mut process);
    assert_eq!(process.rest, vec![1, 2, 3]);
}

#[test]
fn a_signal_from_a_release_takes_no_entry_of_the_walk() {
    let late = reentrant(3, Vec::new(), false);
    let first = reentrant(1, vec![late], true);
    let second = reentrant(2, Vec::new(), false);
    let mut process = process(&[&first, &second]);
    signal_shutdown_reentrant::<_, _, ReentrantStrong>(&mut process);
    assert_eq!(process.rest, vec![1, 3, 2]);
}
