//! Registry of memory-mapped devices and the interrupt lines assigned to them.

use vstd::prelude::*;

verus! {

/// Identity of a device that handles interrupts.
pub type DeviceId = u64;

/// Highest interrupt line that a registered device can be dispatched on.
pub const MAX_MMIO_IRQ: u32 = 8;

/// A range of addresses: `size` bytes from `start`.
#[derive(Clone, Copy, Debug, PartialEq, Eq, Structural)]
pub struct MmioRange {
    pub start: usize,
    pub size: usize,
}

impl MmioRange {
    pub fn new(start: usize, size: usize) -> (r: Self)
        ensures
            r == (MmioRange { start, size }),
    {
        MmioRange { start, size }
    }

    /// Whether `addr` lies in the range.
    pub fn contains(&self, addr: usize) -> (r: bool)
        ensures
            r == (self.start <= addr && addr < self.start + self.size),
    {
        addr >= self.start && addr - self.start < self.size
    }
}

/// One registration: the interrupt line, the device (if any) and its range.
pub struct MmioEntry {
    pub irq: u32,
    pub device: Option<DeviceId>,
    pub range: MmioRange,
}

/// The registered devices by interrupt line, in the order the lines were
/// handed out.
pub struct MmioRegistry {
    entries: Vec<MmioEntry>,
    next_irq: u32,
}

impl MmioRegistry {
    pub closed spec fn entries(&self) -> Seq<MmioEntry> {
        self.entries@
    }

    /// The interrupt line the next registration gets.
    pub closed spec fn next_irq(&self) -> u32 {
        self.next_irq
    }

    /// Lines are handed out in increasing order, each once.
    pub open spec fn wf(&self) -> bool {
        &&& forall|i: int, j: int| 0 <= i < j < self.entries().len() ==>
            (#[trigger] self.entries()[i]).irq < (#[trigger] self.entries()[j]).irq
        &&& forall|i: int| 0 <= i < self.entries().len() ==> (#[trigger] self.entries()[i]).irq < self.next_irq()
    }

    /// An empty registry whose first line is 1.
    pub fn new() -> (r: Self)
        ensures
            r.wf(),
            r.entries() == Seq::<MmioEntry>::empty(),
            r.next_irq() == 1,
    {
        MmioRegistry { entries: Vec::new(), next_irq: 1 }
    }
}

/// The device registered on line `irq`, if any.
pub open spec fn device_on(entries: Seq<MmioEntry>, irq: u32) -> Option<DeviceId>
    decreases entries.len(),
{
    if entries.len() == 0 {
        None
    } else if entries.last().irq == irq {
        entries.last().device
    } else {
        device_on(entries.drop_last(), irq)
    }
}

/// Registers `device` for `range` on the next free interrupt line, and,
/// for a line up to [`MAX_MMIO_IRQ`], has `register_handler` install the
/// line's dispatcher. Returns the line when the dispatcher was installed;
/// otherwise the registration is kept but no line is returned. Once lines
/// are exhausted nothing is registered.
pub fn register_mmio_device<F: FnOnce(u32) -> bool>(
    registry: &mut MmioRegistry,
    range: MmioRange,
    device: Option<DeviceId>,
    register_handler: F,
) -> (r: Option<u32>)
    requires
        old(registry).wf(),
        forall|irq: u32| register_handler.requires((irq,)),
    ensures
        final(registry).wf(),
        old(registry).next_irq() == u32::MAX ==> r.is_none() && final(registry).entries() == old(registry).entries()
            && final(registry).next_irq() == old(registry).next_irq(),
        old(registry).next_irq() < u32::MAX ==> final(registry).entries()
            == old(registry).entries().push(MmioEntry { irq: old(registry).next_irq(), device, range })
            && final(registry).next_irq() == old(registry).next_irq() + 1
            && (old(registry).next_irq() > MAX_MMIO_IRQ ==> r.is_none())
            && (old(registry).next_irq() <= MAX_MMIO_IRQ ==>
                (r == Some(old(registry).next_irq()) && register_handler.ensures((old(registry).next_irq(),), true))
                || (r.is_none() && register_handler.ensures((old(registry).next_irq(),), false))),
{
    let irq = registry.next_irq;
    if irq == u32::MAX {
        return None;
    }
    registry.next_irq = irq + 1;
    registry.entries.push(MmioEntry { irq, device, range });
    if irq > MAX_MMIO_IRQ {
        return None;
    }
    if register_handler(irq) {
        Some(irq)
    } else {
        None
    }
}

/// Replaces the device on line `irq`; returns whether the line is registered.
pub fn replace_mmio_device(registry: &mut MmioRegistry, irq: u32, device: Option<DeviceId>) -> (r: bool)
    requires
        old(registry).wf(),
    ensures
        final(registry).wf(),
        final(registry).next_irq() == old(registry).next_irq(),
        r == exists|i: int| 0 <= i < old(registry).entries().len() && (#[trigger] old(registry).entries()[i]).irq == irq,
        !r ==> final(registry).entries() == old(registry).entries(),
        r ==> exists|i: int| 0 <= i < old(registry).entries().len() && (#[trigger] old(registry).entries()[i]).irq == irq
            && final(registry).entries() == old(registry).entries().update(i, MmioEntry { irq, device, range: old(registry).entries()[i].range }),
{
    let mut i: usize = 0;
    while i < registry.entries.len()
        invariant
            i <= registry.entries@.len(),
            old(registry).wf(),
            registry.entries@ == old(registry).entries@,
            registry.next_irq == old(registry).next_irq,
            forall|j: int| 0 <= j < i ==> (#[trigger] registry.entries@[j]).irq != irq,
        decreases registry.entries@.len() - i,
    {
        if registry.entries[i].irq == irq {
            let range = registry.entries[i].range;
            registry.entries.set(i, MmioEntry { irq, device, range });
            proof {
                let e = registry.entries@;
                let o = old(registry).entries@;
                assert(o[i as int].irq == irq);
                assert(e == o.update(i as int, MmioEntry { irq, device, range }));
                assert forall|a: int, b: int| 0 <= a < b < e.len() implies
                    (#[trigger] e[a]).irq < (#[trigger] e[b]).irq by {
                    assert(e[a].irq == o[a].irq && e[b].irq == o[b].irq);
                }
                assert forall|a: int| 0 <= a < e.len() implies (#[trigger] e[a]).irq < registry.next_irq by {
                    assert(e[a].irq == o[a].irq);
                }
            }
            return true;
        }
        i = i + 1;
    }
    false
}

/// The device registered on line `irq`, if any.
pub fn find_device_by_irq(registry: &MmioRegistry, irq: u32) -> (r: Option<DeviceId>)
    requires
        registry.wf(),
    ensures
        r == device_on(registry.entries(), irq),
{
    let mut i: usize = registry.entries.len();
    assert(registry.entries@.subrange(0, i as int) =~= registry.entries@);
    while i > 0
        invariant
            i <= registry.entries@.len(),
            device_on(registry.entries@, irq) == device_on(registry.entries@.subrange(0, i as int), irq),
        decreases i,
    {
        let ghost s = registry.entries@.subrange(0, i as int);
        assert(s.drop_last() =~= registry.entries@.subrange(0, i - 1));
        if registry.entries[i - 1].irq == irq {
            return registry.entries[i - 1].device;
        }
        i = i - 1;
    }
    proof {
        assert(registry.entries@.subrange(0, 0) =~= Seq::<MmioEntry>::empty());
    }
    None
}

/// Routes an interrupt on line `irq`: the device to notify, if one is
/// registered there.
pub fn dispatch_irq(registry: &MmioRegistry, irq: u32) -> (r: Option<DeviceId>)
    requires
        registry.wf(),
    ensures
        r == device_on(registry.entries(), irq),
{
    find_device_by_irq(registry, irq)
}

/// The registered lines and their ranges, in increasing line order.
pub fn dump_mmio_registry(registry: &MmioRegistry) -> (r: Vec<(u32, MmioRange)>)
    ensures
        r@.len() == registry.entries().len(),
        forall|i: int| 0 <= i < r@.len() ==> (#[trigger] r@[i]) == (registry.entries()[i].irq, registry.entries()[i].range),
{
    let mut out: Vec<(u32, MmioRange)> = Vec::new();
    let mut i: usize = 0;
    while i < registry.entries.len()
        invariant
            i <= registry.entries@.len(),
            out@.len() == i,
            forall|j: int| 0 <= j < i ==> (#[trigger] out@[j]) == (registry.entries@[j].irq, registry.entries@[j].range),
        decreases registry.entries@.len() - i,
    {
        out.push((registry.entries[i].irq, registry.entries[i].range));
        i = i + 1;
    }
    out
}

} // verus!
