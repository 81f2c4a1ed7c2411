use axasync::executor::Executor;
use axasync::mutex::{Mutex, MutexGuard};
use axasync::rwlock::{RwLock, WRITER};
use axasync::semaphore::{Barrier, Semaphore};

#[test]
fn hundred_tasks_increment_under_mutex() {
    let mut ex = Executor::new();
    let mut counter = Mutex::new(0u32);
    let n = 100usize;
    for _ in 0..n {
        ex.spawn::<()>();
    }
    // Each task: take the lock, yield while holding it, then add one and
    // release. Holding across a suspension makes the others queue up.
    let mut held: Vec<Option<MutexGuard>> = (0..n).map(|_| None).collect();
    let mut steps = 0;
    while let Some(id) = ex.begin_poll() {
        steps += 1;
        assert!(steps < 10_000);
        let done = match held[id].take() {
            Some(g) => {
                let v = *counter.get(&g);
                counter.set(&g, v + 1);
                if let Some(w) = counter.unlock(g) {
                    ex.wake(w);
                }
                true
            }
            None => match counter.lock(id) {
                Some(g) => {
                    held[id] = Some(g);
                    ex.wake(id);
                    false
                }
                None => false,
            },
        };
        ex.end_poll(id, done);
    }
    let g = counter.try_lock().unwrap();
    assert_eq!(*counter.get(&g), 100);
}

#[test]
fn try_lock_fails_while_held() {
    let mut m = Mutex::new(1u8);
    let g = m.try_lock().unwrap();
    assert!(m.try_lock().is_none());
    assert_eq!(m.unlock(g), None);
    assert!(m.try_lock().is_some());
}

#[test]
fn mutex_release_wakes_oldest_waiter() {
    let mut m = Mutex::new(());
    let g = m.lock(1).unwrap();
    assert!(m.lock(2).is_none());
    assert!(m.lock(3).is_none());
    assert_eq!(m.unlock(g), Some(2));
    let g = m.lock(2).unwrap();
    assert_eq!(m.unlock(g), Some(3));
}

#[test]
fn writer_released_wakes_waiting_writer_before_reader() {
    let mut l = RwLock::new(0u32);
    let w1 = l.try_write().unwrap();
    // reader 1 registers before writer 2
    assert!(l.read(1).is_none());
    assert!(l.write(2).is_none());
    assert_eq!(l.write_unlock(w1), vec![2]);
    let w2 = l.write(2).unwrap();
    assert!(l.try_read().is_none());
    // reader 1 is woken only when writer 2 releases
    assert_eq!(l.write_unlock(w2), vec![1]);
    assert!(l.read(1).is_some());
}

#[test]
fn write_release_wakes_all_readers() {
    let mut l = RwLock::new(());
    let w = l.try_write().unwrap();
    assert!(l.read(4).is_none());
    assert!(l.read(5).is_none());
    assert!(l.read(6).is_none());
    assert_eq!(l.write_unlock(w), vec![4, 5, 6]);
}

#[test]
fn readers_share_and_last_reader_wakes_writer() {
    let mut l = RwLock::new(3u8);
    let r1 = l.try_read().unwrap();
    let r2 = l.try_read().unwrap();
    assert_eq!(*l.get(&r1), 3);
    assert!(l.write(9).is_none());
    assert_eq!(l.read_unlock(r1), None);
    assert_eq!(l.read_unlock(r2), Some(9));
    let w = l.try_write().unwrap();
    l.set(&w, 4);
    assert_eq!(l.write_unlock(w), Vec::<usize>::new());
    let r = l.try_read().unwrap();
    assert_eq!(*l.get(&r), 4);
    assert!(WRITER == usize::MAX);
}

#[test]
fn semaphore_of_two() {
    let mut s = Semaphore::new(2);
    assert_eq!(s.max_permits(), 2);
    let p1 = s.try_acquire().unwrap();
    assert_eq!(s.available_permits(), 1);
    let _p2 = s.try_acquire().unwrap();
    assert_eq!(s.available_permits(), 0);
    assert!(s.try_acquire().is_none());
    assert_eq!(s.available_permits(), 0);
    assert_eq!(s.release(p1), None);
    assert_eq!(s.available_permits(), 1);
    assert!(s.try_acquire().is_some());
    assert!(s.available_permits() <= 2);
}

#[test]
fn semaphore_release_wakes_waiter() {
    let mut s = Semaphore::new(1);
    let p = s.acquire(1).unwrap();
    assert!(s.acquire(2).is_none());
    assert_eq!(s.release(p), Some(2));
    assert!(s.acquire(2).is_some());
}

#[test]
fn semaphore_of_zero() {
    let mut s = Semaphore::new(0);
    assert!(s.try_acquire().is_none());
    assert_eq!(s.available_permits(), 0);
}

#[test]
fn barrier_locked_and_released() {
    let mut b = Barrier::new(true);
    assert!(!b.is_released());
    assert!(b.try_acquire().is_none());
    let mut open = Barrier::new(false);
    assert!(open.is_released());
    let g = open.try_acquire().unwrap();
    assert!(!open.is_released());
    assert!(open.acquire(7).is_none());
    assert_eq!(open.release(g), Some(7));
    assert!(open.is_released());
    let _ = b;
}
