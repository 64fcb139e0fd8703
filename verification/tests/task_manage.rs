use core::hash::Hasher;
use rcore_os::task_manage::collections::SimpleHasher;
use rcore_os::task_manage::proc_rel::{WAIT_CHILD_PENDING, WAIT_SENTINEL_NUMBER};
use rcore_os::task_manage::proc_thread_rel::THREAD_WAIT_PENDING;
use rcore_os::task_manage::{
    CoroId, Manage, PManager, PThreadManager, ProcId, ProcRel, ProcThreadRel, Schedule, ThreadId,
};
use std::collections::{HashMap, HashSet, VecDeque};
use std::hash::Hash;

struct TestManager<T> {
    items: HashMap<usize, T>,
}

impl<T> TestManager<T> {
    fn new() -> Self {
        Self { items: HashMap::new() }
    }
}

impl<T> Manage<T, usize> for TestManager<T> {
    fn insert(&mut self, id: usize, item: T) {
        self.items.insert(id, item);
    }

    fn delete(&mut self, id: usize) {
        self.items.remove(&id);
    }

    fn get_mut(&mut self, id: usize) -> Option<&mut T> {
        self.items.get_mut(&id)
    }
}

struct TestScheduler<I> {
    queue: VecDeque<I>,
}

impl<I: Copy + Ord> TestScheduler<I> {
    fn new() -> Self {
        Self { queue: VecDeque::new() }
    }
}

impl<I: Copy + Ord> Schedule<I> for TestScheduler<I> {
    fn add(&mut self, id: I) {
        self.queue.push_back(id);
    }

    fn fetch(&mut self) -> Option<I> {
        self.queue.pop_front()
    }
}

struct GenericTaskManager<T, I> {
    items: HashMap<I, T>,
    queue: VecDeque<I>,
}

impl<T, I: Copy + Ord + Eq + Hash> GenericTaskManager<T, I> {
    fn new() -> Self {
        Self { items: HashMap::new(), queue: VecDeque::new() }
    }
}

impl<T, I: Copy + Ord + Eq + Hash> Manage<T, I> for GenericTaskManager<T, I> {
    fn insert(&mut self, id: I, item: T) {
        self.items.insert(id, item);
    }

    fn delete(&mut self, id: I) {
        self.items.remove(&id);
    }

    fn get_mut(&mut self, id: I) -> Option<&mut T> {
        self.items.get_mut(&id)
    }
}

impl<T, I: Copy + Ord + Eq + Hash> Schedule<I> for GenericTaskManager<T, I> {
    fn add(&mut self, id: I) {
        self.queue.push_back(id);
    }

    fn fetch(&mut self) -> Option<I> {
        self.queue.pop_front()
    }
}

#[test]
fn test_manage_trait_insert_delete_get_mut() {
    let mut manager: TestManager<String> = TestManager::new();
    manager.insert(1, "item1".to_string());
    manager.insert(2, "item2".to_string());
    assert_eq!(manager.get_mut(1).map(|s: &mut String| s.as_str()), Some("item1"));
    manager.delete(1);
    assert_eq!(manager.get_mut(1), None);
    assert_eq!(manager.get_mut(2).map(|s: &mut String| s.as_str()), Some("item2"));
}

#[test]
fn test_schedule_trait_fifo_order() {
    let mut scheduler: TestScheduler<usize> = TestScheduler::new();
    assert_eq!(scheduler.fetch(), None);
    scheduler.add(1);
    scheduler.add(2);
    scheduler.add(3);
    assert_eq!(scheduler.fetch(), Some(1));
    assert_eq!(scheduler.fetch(), Some(2));
    assert_eq!(scheduler.fetch(), Some(3));
    assert_eq!(scheduler.fetch(), None);
}

#[test]
fn test_id_types_hash() {
    let mut set = HashSet::new();
    set.insert(ProcId::from_usize(1));
    set.insert(ProcId::from_usize(2));
    set.insert(ProcId::from_usize(1));
    assert_eq!(set.len(), 2);
}

#[test]
fn id_numbers_round_trip_and_order() {
    assert_eq!(ProcId::from_usize(42).get_usize(), 42);
    assert_eq!(ThreadId::from_usize(100).get_usize(), 100);
    assert_eq!(CoroId::from_usize(200).get_usize(), 200);
    assert!(ProcId::from_usize(10) < ProcId::from_usize(20));
    assert!(ThreadId::from_usize(10) < ThreadId::from_usize(20));
    assert!(CoroId::from_usize(10) < CoroId::from_usize(20));
    assert!(format!("{:?}", ProcId::from_usize(1)).contains("ProcId"));
    assert!(format!("{:?}", ThreadId::from_usize(1)).contains("ThreadId"));
    assert!(format!("{:?}", CoroId::from_usize(1)).contains("CoroId"));
}

#[test]
fn test_proc_rel_wait_semantics_match_current_behavior() {
    let parent = ProcId::from_usize(0);
    let child = ProcId::from_usize(1);
    let mut rel = ProcRel::new(parent);
    rel.add_child(child);
    let waiting = rel.wait_any_child().unwrap();
    assert_eq!(waiting.0.get_usize(), usize::MAX - 1);
    assert_eq!(waiting.1, -1);
    rel.del_child(child, 7);
    assert_eq!(rel.wait_any_child(), Some((child, 7)));
    assert_eq!(rel.wait_any_child(), None);
}

#[test]
fn exits_are_reported_oldest_first() {
    let mut rel = ProcRel::new(ProcId::from_usize(0));
    let a = ProcId::from_usize(1);
    let b = ProcId::from_usize(2);
    rel.add_child(a);
    rel.add_child(b);
    assert_eq!(rel.running_children(), 2);
    rel.del_child(b, 20);
    rel.del_child(a, 10);
    rel.del_child(a, 99);
    assert_eq!(rel.wait_any_child(), Some((b, 20)));
    assert_eq!(rel.wait_any_child(), Some((a, 10)));
    assert_eq!(rel.wait_any_child(), None);
    assert_eq!(WAIT_SENTINEL_NUMBER, usize::MAX - 1);
    assert_eq!(WAIT_CHILD_PENDING, -1);
}

#[test]
fn test_proc_thread_rel_wait_thread_semantics_match_current_behavior() {
    let parent = ProcId::from_usize(0);
    let tid = ThreadId::from_usize(2);
    let mut rel = ProcThreadRel::new(parent);
    rel.add_thread(tid);
    assert_eq!(rel.wait_thread(tid), Some(-2));
    rel.del_thread(tid, 11);
    assert_eq!(rel.wait_thread(tid), Some(11));
    assert_eq!(rel.wait_thread(tid), None);
    assert_eq!(THREAD_WAIT_PENDING, -2);
}

#[test]
fn test_pthread_manager_waittid_tracks_thread_exit() {
    let mut manager = PThreadManager::<
        usize,
        usize,
        GenericTaskManager<usize, ThreadId>,
        GenericTaskManager<usize, ProcId>,
    >::new();
    manager.set_manager(GenericTaskManager::new());
    manager.set_proc_manager(GenericTaskManager::new());

    let pid = ProcId::from_usize(1);
    let parent = ProcId::from_usize(0);
    let t1 = ThreadId::from_usize(11);
    let t2 = ThreadId::from_usize(12);

    manager.add_proc(parent, 0, parent);
    manager.add_proc(pid, 100, parent);
    manager.add(t1, 1, pid);
    manager.add(t2, 2, pid);

    assert!(manager.find_next().is_some());
    manager.make_current_suspend();
    assert!(manager.find_next().is_some());
    manager.make_current_exited(9);
    assert!(manager.find_next().is_some());
    assert_eq!(manager.waittid(t2), Some(9));
    assert_eq!(manager.thread_count(pid), 1);
}

#[test]
fn waittid_forgets_reported_and_unknown_threads() {
    let mut manager = PThreadManager::<
        usize,
        usize,
        GenericTaskManager<usize, ThreadId>,
        GenericTaskManager<usize, ProcId>,
    >::new();
    manager.set_manager(GenericTaskManager::new());
    manager.set_proc_manager(GenericTaskManager::new());
    let pid = ProcId::from_usize(3);
    let t = ThreadId::from_usize(30);
    manager.add_proc(pid, 0, pid);
    manager.add(t, 0, pid);
    assert_eq!(manager.waittid(t), Some(THREAD_WAIT_PENDING));
    assert_eq!(manager.find_next(), Some(t));
    manager.make_current_exited(4);
    assert_eq!(manager.waittid(t), Some(4));
    assert_eq!(manager.waittid(t), None);
    assert_eq!(manager.thread_count(pid), 0);
    assert_eq!(manager.thread_count(ProcId::from_usize(77)), 0);
    assert_eq!(manager.waittid(ThreadId::from_usize(99)), None);
}

#[test]
fn process_manager_reports_child_exits() {
    let mut manager = PManager::<usize, GenericTaskManager<usize, ProcId>>::new();
    manager.set_manager(GenericTaskManager::new());
    let init = ProcId::from_usize(1);
    let child = ProcId::from_usize(2);
    manager.add(init, 10, ProcId::from_usize(0));
    manager.add(child, 20, init);
    assert!(manager.has_proc(init));
    assert!(manager.has_proc(child));
    assert!(!manager.has_proc(ProcId::from_usize(5)));
    let pending = manager.wait_any_child(init).unwrap();
    assert_eq!(pending, (ProcId::from_usize(WAIT_SENTINEL_NUMBER), WAIT_CHILD_PENDING));
    manager.del(child, 3);
    assert_eq!(manager.wait_any_child(init), Some((child, 3)));
    assert_eq!(manager.wait_any_child(init), None);
    assert_eq!(manager.wait_any_child(ProcId::from_usize(9)), None);
    assert!(manager.has_proc(child));
}

#[test]
fn fetched_thread_becomes_the_running_one() {
    let mut manager = PThreadManager::<
        usize,
        usize,
        GenericTaskManager<usize, ThreadId>,
        GenericTaskManager<usize, ProcId>,
    >::new();
    manager.set_manager(GenericTaskManager::new());
    manager.set_proc_manager(GenericTaskManager::new());
    let pid = ProcId::from_usize(5);
    let t = ThreadId::from_usize(50);
    manager.add_proc(pid, 0, pid);
    manager.add(t, 0, pid);
    assert_eq!(manager.run_fetched(Some(t)), Some(t));
    assert_eq!(manager.run_fetched(None), None);
    manager.make_current_exited(6);
    assert_eq!(manager.waittid(t), Some(6));
}

#[test]
fn simple_hasher_is_fnv1a() {
    let mut h = SimpleHasher::default();
    assert_eq!(h.finish(), 0xcbf29ce484222325);
    h.write(b"a");
    assert_eq!(h.finish(), 0xaf63dc4c8601ec8c);
    h.write(b"");
    assert_eq!(h.finish(), 0xaf63dc4c8601ec8c);
}

#[test]
fn test_id_types_basic_traits() {
    assert_eq!(ProcId::from_usize(42).get_usize(), 42);
    assert_eq!(ThreadId::from_usize(100).get_usize(), 100);
    assert_eq!(CoroId::from_usize(200).get_usize(), 200);
    assert!(ProcId::from_usize(10) < ProcId::from_usize(20));
    assert!(ThreadId::from_usize(10) < ThreadId::from_usize(20));
    assert!(CoroId::from_usize(10) < CoroId::from_usize(20));
    assert!(format!("{:?}", ProcId::from_usize(1)).contains("ProcId"));
    assert!(format!("{:?}", ThreadId::from_usize(1)).contains("ThreadId"));
    assert!(format!("{:?}", CoroId::from_usize(1)).contains("CoroId"));
}
