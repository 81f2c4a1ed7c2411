use axasync::mmio::{dispatch_irq, dump_mmio_registry, find_device_by_irq, register_mmio_device, replace_mmio_device, MmioRange, MmioRegistry, MAX_MMIO_IRQ};
use axasync::mmio_event::{MmioEvent, MmioWakerSet};
use axasync::task_waker::AsyncTask;
use axasync::Poll;

#[test]
fn range_contains() {
    let r = MmioRange::new(0x1000, 0x100);
    assert!(r.contains(0x1000));
    assert!(r.contains(0x10ff));
    assert!(!r.contains(0x1100));
    assert!(!r.contains(0xfff));
    let top = MmioRange::new(usize::MAX - 1, 10);
    assert!(top.contains(usize::MAX));
}

#[test]
fn registry_assigns_lines() {
    let mut reg = MmioRegistry::new();
    let a = register_mmio_device(&mut reg, MmioRange::new(0x1000, 0x10), Some(7), |_| true);
    let b = register_mmio_device(&mut reg, MmioRange::new(0x2000, 0x10), None, |_| true);
    assert_eq!(a, Some(1));
    assert_eq!(b, Some(2));
    assert_eq!(find_device_by_irq(&reg, 1), Some(7));
    assert_eq!(find_device_by_irq(&reg, 2), None);
    assert_eq!(find_device_by_irq(&reg, 3), None);
    assert!(replace_mmio_device(&mut reg, 2, Some(8)));
    assert!(!replace_mmio_device(&mut reg, 5, Some(8)));
    assert_eq!(dispatch_irq(&reg, 2), Some(8));
    let dump = dump_mmio_registry(&reg);
    assert_eq!(dump, vec![(1, MmioRange::new(0x1000, 0x10)), (2, MmioRange::new(0x2000, 0x10))]);
}

#[test]
fn registry_lines_past_limit() {
    let mut reg = MmioRegistry::new();
    for i in 1..=MAX_MMIO_IRQ {
        assert_eq!(register_mmio_device(&mut reg, MmioRange::new(0, 1), Some(i as u64), |_| true), Some(i));
    }
    assert_eq!(register_mmio_device(&mut reg, MmioRange::new(0, 1), Some(99), |_| true), None);
    assert_eq!(find_device_by_irq(&reg, MAX_MMIO_IRQ + 1), Some(99));
}

#[test]
fn event_registers_once_and_cancels() {
    let mut set = MmioWakerSet::new();
    let mut ev = MmioEvent::new(5);
    assert_eq!(ev.event_id(), 5);
    assert!(matches!(ev.poll(&mut set, 1), Poll::Pending));
    assert!(matches!(ev.poll(&mut set, 2), Poll::Pending));
    assert_eq!(set.wake_event(5), Some(1));
    assert_eq!(set.wake_event(5), None);
    ev.complete();
    assert!(matches!(ev.poll(&mut set, 1), Poll::Ready(5)));
    assert!(!ev.cancel(&mut set));
    let mut other = MmioEvent::new(6);
    assert!(matches!(other.poll(&mut set, 3), Poll::Pending));
    assert!(other.cancel(&mut set));
    assert!(!set.cancel(6));
}

#[test]
fn waker_set_replaces_registration() {
    let mut set = MmioWakerSet::new();
    assert!(set.register(1, 10));
    assert!(set.register(2, 20));
    assert!(set.register(1, 11));
    assert_eq!(set.wake_event(1), Some(11));
    assert!(set.cancel(2));
    assert_eq!(set.wake_event(2), None);
}

#[test]
fn async_task_slot() {
    let mut t = AsyncTask::new();
    assert_eq!(t.wake(), None);
    t.set_waker(3);
    t.set_waker(3);
    t.set_waker(4);
    assert_eq!(t.wake(), Some(4));
    assert_eq!(t.wake(), None);
}

#[test]
fn wake_matching_removes_accepted_events() {
    let mut set = MmioWakerSet::new();
    for id in 1..=6u64 {
        set.register(id, id as usize * 10);
    }
    let mut woken = set.wake_matching(|id| id % 2 == 0);
    woken.sort();
    assert_eq!(woken, vec![20, 40, 60]);
    assert_eq!(set.wake_event(2), None);
    assert_eq!(set.wake_event(3), Some(30));
    assert_eq!(set.wake_matching(|_| false), Vec::<usize>::new());
    assert_eq!(set.wake_event(5), Some(50));
}

#[test]
fn registry_handler_refused() {
    let mut reg = MmioRegistry::new();
    assert_eq!(register_mmio_device(&mut reg, MmioRange::new(0, 1), Some(5), |_| false), None);
    // the device is registered all the same
    assert_eq!(find_device_by_irq(&reg, 1), Some(5));
    let mut seen = 0;
    assert_eq!(register_mmio_device(&mut reg, MmioRange::new(0, 1), None, |irq| { seen = irq; true }), Some(2));
    assert_eq!(seen, 2);
}
