//! The MMIO bus: non-overlapping address ranges, each owned by a device.
//!
//! The ranges are kept in vm-device's `Bus`, keyed by their base address;
//! the device of a range is its index in the owner's device list.

use vm_device::bus::{Error as BusError, MmioAddress, MmioBus, MmioRange};
use vstd::prelude::*;

verus! {

#[verifier::external_type_specification]
pub struct ExBusError(BusError);

/// vm-device's bus of MMIO ranges, each mapped to a device index.
#[verifier::external_body]
pub struct DeviceBus {
    bus: MmioBus<usize>,
}

/// What the bus holds: for each registered range, keyed by its base, its
/// size and its device index.
pub uninterp spec fn bus_entries(b: DeviceBus) -> Map<u64, (u64, usize)>;

/// The range `[base, base + size)` shares an address with no range of `m`.
pub open spec fn fits_between(m: Map<u64, (u64, usize)>, base: u64, size: u64) -> bool {
    forall|k: u64|
        #[trigger] m.contains_key(k) ==> !(base < k + m[k].0 && k < base + size)
}

/// `b` is the largest base of `m` that is at most `addr`.
pub open spec fn greatest_base_at_most(m: Map<u64, (u64, usize)>, addr: u64, b: u64) -> bool {
    &&& m.contains_key(b)
    &&& b <= addr
    &&& forall|k: u64| #[trigger] m.contains_key(k) && k <= addr ==> k <= b
}

/// The access `[addr, addr + len)` lies in the range of `m` based at `b`,
/// the last range starting at or before `addr`.
pub open spec fn serves(m: Map<u64, (u64, usize)>, addr: u64, len: usize, b: u64) -> bool {
    &&& greatest_base_at_most(m, addr, b)
    &&& len > 0
    &&& addr + len <= u64::MAX + 1
    &&& addr + len <= b + m[b].0
}

impl DeviceBus {
    /// Relies on vm_device::bus::Bus::new: the bus starts with no range.
    #[verifier::external_body]
    pub(crate) fn new() -> (r: DeviceBus)
        ensures
            bus_entries(r) =~= Map::empty(),
    {
        DeviceBus { bus: MmioBus::new() }
    }

    /// Relies on vm_device::bus::Bus::register (with BusRange::new building
    /// the range, which succeeds on a non-empty range inside the address
    /// space): a range overlapping a registered one is refused with
    /// `DeviceOverlap` and the bus is unchanged; any other is added under
    /// its base.
    #[verifier::external_body]
    pub(crate) fn register(&mut self, base: u64, size: u64, device: usize)
        -> (r: Result<(), BusError>)
        requires
            size > 0,
            base + size <= u64::MAX + 1,
        ensures
            r is Ok <==> fits_between(bus_entries(*old(self)), base, size),
            r is Ok ==> bus_entries(*final(self)) == bus_entries(*old(self)).insert(
                base,
                (size, device),
            ),
            r is Err ==> bus_entries(*final(self)) == bus_entries(*old(self)),
            r matches Err(e) ==> e == BusError::DeviceOverlap,
    {
        let range = MmioRange::new(MmioAddress(base), size)?;
        self.bus.register(range, device)
    }

    /// Relies on vm_device::bus::Bus::check_access: it finds the last range
    /// starting at or before `addr` and accepts the access of `len` bytes
    /// when it ends inside that range; an empty access, or one running past
    /// the address space, is `InvalidRange`; one no range serves is
    /// `DeviceNotFound`. On success it gives the range's base and device.
    #[verifier::external_body]
    pub(crate) fn check_access(&self, addr: u64, len: usize)
        -> (r: Result<(u64, usize), BusError>)
        ensures
            r matches Ok((b, d)) ==> serves(bus_entries(*self), addr, len, b) && d == bus_entries(
                *self,
            )[b].1,
            r is Err ==> forall|b: u64| !serves(bus_entries(*self), addr, len, b),
    {
        self.bus.check_access(MmioAddress(addr), len).map(|(range, device)| (range.base().0, *device))
    }
}

} // verus!
