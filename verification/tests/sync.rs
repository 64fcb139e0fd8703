use rcore_os::sync::condvar::CondvarState;
use rcore_os::sync::mutex::MutexState;
use rcore_os::sync::semaphore::SemaphoreState;
use rcore_os::task_manage::ThreadId;

#[test]
fn mutex_hands_the_lock_to_the_first_waiter() {
    let mut mutex = MutexState::new();
    let t1 = ThreadId::from_usize(1);
    let t2 = ThreadId::from_usize(2);
    let t3 = ThreadId::from_usize(3);
    assert!(mutex.lock(t1));
    assert!(!mutex.lock(t2));
    assert!(!mutex.lock(t3));
    assert_eq!(mutex.unlock(), Some(t2));
    assert_eq!(mutex.unlock(), Some(t3));
    assert_eq!(mutex.unlock(), None);
    assert_eq!(mutex.unlock(), None);
    assert!(mutex.lock(t1));
}

#[test]
fn condvar_wakes_waiters_in_order() {
    let mut condvar = CondvarState::new();
    let tid = ThreadId::from_usize(9);
    let other = ThreadId::from_usize(10);
    assert!(!condvar.wait_no_sched(tid));
    assert!(!condvar.wait_no_sched(other));
    assert_eq!(condvar.signal(), Some(tid));
    assert_eq!(condvar.signal(), Some(other));
    assert_eq!(condvar.signal(), None);
}

#[test]
fn semaphore_down_and_up_balance() {
    let mut semaphore = SemaphoreState::new(1);
    let t1 = ThreadId::from_usize(11);
    let t2 = ThreadId::from_usize(22);
    assert!(semaphore.down(t1));
    assert!(!semaphore.down(t2));
    assert_eq!(semaphore.up(), Some(t2));
    assert_eq!(semaphore.up(), None);
    assert!(semaphore.down(t1));
    assert!(!semaphore.down(t2));
}
