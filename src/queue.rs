//! The driver-visible state of a Virtqueue.

use virtio_queue::{Queue, QueueT};
use vm_memory::GuestAddress;
use vstd::prelude::*;

verus! {

/// Largest queue size a Virtqueue may have.
pub const MAX_QUEUE_SIZE: u16 = 32768;

/// `v` is a non-zero power of two.
pub open spec fn is_power_of_two(v: u16) -> bool {
    v != 0 && v & ((v - 1) as u16) == 0
}

/// `size` is a size the driver may give a queue whose maximum is `max_size`.
pub open spec fn valid_size(max_size: u16, size: u16) -> bool {
    size <= max_size && is_power_of_two(size)
}

/// A queue of maximum `max_size` can exist and takes `size` as its size.
pub open spec fn size_accepted(max_size: u16, size: u16) -> bool {
    is_power_of_two(max_size) && max_size <= MAX_QUEUE_SIZE && valid_size(max_size, size)
}

/// Relies on virtio_queue's `Queue::new`, which builds a queue of a maximum
/// size that is a non-zero power of two no larger than 32768 and refuses any
/// other, and `Queue::try_set_size`, which accepts a size that is a non-zero
/// power of two no larger than the maximum.
#[verifier::external_body]
fn queue_accepts_size(max_size: u16, size: u16) -> (r: bool)
    ensures
        r == size_accepted(max_size, size),
{
    match Queue::new(max_size) {
        Ok(mut q) => q.try_set_size(size).is_ok(),
        Err(_) => false,
    }
}

/// Relies on virtio_queue's `Queue::try_set_desc_table_address`: a
/// descriptor table address is accepted when it is 16-byte aligned (the
/// queue of maximum size 1 it is tried on always exists).
#[verifier::external_body]
fn queue_accepts_desc_table(addr: u64) -> (r: bool)
    ensures
        r == (addr & 0xfu64 == 0),
{
    match Queue::new(1) {
        Ok(mut q) => q.try_set_desc_table_address(GuestAddress(addr)).is_ok(),
        Err(_) => false,
    }
}

/// Relies on virtio_queue's `Queue::try_set_avail_ring_address`: an
/// available ring address is accepted when it is 2-byte aligned.
#[verifier::external_body]
fn queue_accepts_avail_ring(addr: u64) -> (r: bool)
    ensures
        r == (addr & 0x1u64 == 0),
{
    match Queue::new(1) {
        Ok(mut q) => q.try_set_avail_ring_address(GuestAddress(addr)).is_ok(),
        Err(_) => false,
    }
}

/// Relies on virtio_queue's `Queue::try_set_used_ring_address`: a used ring
/// address is accepted when it is 4-byte aligned.
#[verifier::external_body]
fn queue_accepts_used_ring(addr: u64) -> (r: bool)
    ensures
        r == (addr & 0x3u64 == 0),
{
    match Queue::new(1) {
        Ok(mut q) => q.try_set_used_ring_address(GuestAddress(addr)).is_ok(),
        Err(_) => false,
    }
}

/// The state of one Virtqueue as the driver programs it through the MMIO
/// registers: its maximum and current size, its ready flag, and the
/// guest-physical addresses of its descriptor table, available ring and
/// used ring.
#[derive(Clone, Copy, Debug, PartialEq, Eq, Structural)]
pub struct QueueState {
    pub max_size: u16,
    pub size: u16,
    pub ready: bool,
    pub desc_table: u64,
    pub avail_ring: u64,
    pub used_ring: u64,
}

/// Replaces the low 32 bits of `addr` by `low`.
pub open spec fn with_low(addr: u64, low: u32) -> u64 {
    ((addr >> 32u64) << 32u64) | (low as u64)
}

/// Replaces the high 32 bits of `addr` by `high`.
pub open spec fn with_high(addr: u64, high: u32) -> u64 {
    ((high as u64) << 32u64) | (addr & 0xffff_ffffu64)
}

impl QueueState {
    /// A queue that is not ready, sized at its maximum, with every ring
    /// address at zero.
    pub open spec fn initial(max_size: u16) -> QueueState {
        QueueState {
            max_size,
            size: max_size,
            ready: false,
            desc_table: 0,
            avail_ring: 0,
            used_ring: 0,
        }
    }

    /// Creates a queue of the given maximum size; the size must be a power
    /// of two no larger than `MAX_QUEUE_SIZE`.
    pub fn new(max_size: u16) -> (r: QueueState)
        requires
            is_power_of_two(max_size),
            max_size <= MAX_QUEUE_SIZE,
        ensures
            r == QueueState::initial(max_size),
    {
        QueueState {
            max_size,
            size: max_size,
            ready: false,
            desc_table: 0,
            avail_ring: 0,
            used_ring: 0,
        }
    }

    /// The queue after the driver writes `size` as its size: a size that is
    /// not a power of two or exceeds the maximum is ignored.
    pub open spec fn spec_set_size(self, size: u16) -> QueueState {
        if size_accepted(self.max_size, size) {
            QueueState { size, ..self }
        } else {
            self
        }
    }

    /// The queue after the driver writes a descriptor table address: kept
    /// only when 16-byte aligned.
    pub open spec fn spec_set_desc_table(self, addr: u64) -> QueueState {
        if addr & 0xfu64 == 0 {
            QueueState { desc_table: addr, ..self }
        } else {
            self
        }
    }

    /// The queue after the driver writes an available ring address: kept
    /// only when 2-byte aligned.
    pub open spec fn spec_set_avail_ring(self, addr: u64) -> QueueState {
        if addr & 0x1u64 == 0 {
            QueueState { avail_ring: addr, ..self }
        } else {
            self
        }
    }

    /// The queue after the driver writes a used ring address: kept only when
    /// 4-byte aligned.
    pub open spec fn spec_set_used_ring(self, addr: u64) -> QueueState {
        if addr & 0x3u64 == 0 {
            QueueState { used_ring: addr, ..self }
        } else {
            self
        }
    }

    pub fn set_size(&mut self, size: u16)
        ensures
            *final(self) == old(self).spec_set_size(size),
    {
        if queue_accepts_size(self.max_size, size) {
            self.size = size;
        }
    }

    pub fn set_desc_table(&mut self, addr: u64)
        ensures
            *final(self) == old(self).spec_set_desc_table(addr),
    {
        if queue_accepts_desc_table(addr) {
            self.desc_table = addr;
        }
    }

    pub fn set_avail_ring(&mut self, addr: u64)
        ensures
            *final(self) == old(self).spec_set_avail_ring(addr),
    {
        if queue_accepts_avail_ring(addr) {
            self.avail_ring = addr;
        }
    }

    pub fn set_used_ring(&mut self, addr: u64)
        ensures
            *final(self) == old(self).spec_set_used_ring(addr),
    {
        if queue_accepts_used_ring(addr) {
            self.used_ring = addr;
        }
    }
}

/// Exec form of `with_low`.
pub fn set_low(addr: u64, low: u32) -> (r: u64)
    ensures
        r == with_low(addr, low),
{
    ((addr >> 32) << 32) | (low as u64)
}

/// Exec form of `with_high`.
pub fn set_high(addr: u64, high: u32) -> (r: u64)
    ensures
        r == with_high(addr, high),
{
    ((high as u64) << 32) | (addr & 0xffff_ffff)
}

} // verus!
