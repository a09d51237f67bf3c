//! The MMIO window of a device: its address range, its interrupt line, and
//! the offsets of the Virtio MMIO registers within it.

use vstd::prelude::*;

verus! {

/// Offset of the magic value register.
pub const VIRTIO_MMIO_MAGIC_VALUE: u64 = 0x000;
/// Offset of the version register.
pub const VIRTIO_MMIO_VERSION: u64 = 0x004;
/// Offset of the device id register.
pub const VIRTIO_MMIO_DEVICE_ID: u64 = 0x008;
/// Offset of the vendor id register.
pub const VIRTIO_MMIO_VENDOR_ID: u64 = 0x00c;
/// Offset of the device features register.
pub const VIRTIO_MMIO_DEVICE_FEATURES: u64 = 0x010;
/// Offset of the device features page selector.
pub const VIRTIO_MMIO_DEVICE_FEATURES_SEL: u64 = 0x014;
/// Offset of the driver features register.
pub const VIRTIO_MMIO_DRIVER_FEATURES: u64 = 0x020;
/// Offset of the driver features page selector.
pub const VIRTIO_MMIO_DRIVER_FEATURES_SEL: u64 = 0x024;
/// Offset of the queue selector.
pub const VIRTIO_MMIO_QUEUE_SEL: u64 = 0x030;
/// Offset of the maximum queue size register.
pub const VIRTIO_MMIO_QUEUE_NUM_MAX: u64 = 0x034;
/// Offset of the queue size register.
pub const VIRTIO_MMIO_QUEUE_NUM: u64 = 0x038;
/// Offset of the queue ready register.
pub const VIRTIO_MMIO_QUEUE_READY: u64 = 0x044;
/// Offset of the queue notify register.
pub const VIRTIO_MMIO_QUEUE_NOTIFY_OFFSET: u64 = 0x050;
/// Offset of the interrupt status register.
pub const VIRTIO_MMIO_INTERRUPT_STATUS: u64 = 0x060;
/// Offset of the interrupt acknowledge register.
pub const VIRTIO_MMIO_INTERRUPT_ACK: u64 = 0x064;
/// Offset of the device status register.
pub const VIRTIO_MMIO_STATUS: u64 = 0x070;
/// Offset of the low half of the descriptor table address.
pub const VIRTIO_MMIO_QUEUE_DESC_LOW: u64 = 0x080;
/// Offset of the high half of the descriptor table address.
pub const VIRTIO_MMIO_QUEUE_DESC_HIGH: u64 = 0x084;
/// Offset of the low half of the available ring address.
pub const VIRTIO_MMIO_QUEUE_AVAIL_LOW: u64 = 0x090;
/// Offset of the high half of the available ring address.
pub const VIRTIO_MMIO_QUEUE_AVAIL_HIGH: u64 = 0x094;
/// Offset of the low half of the used ring address.
pub const VIRTIO_MMIO_QUEUE_USED_LOW: u64 = 0x0a0;
/// Offset of the high half of the used ring address.
pub const VIRTIO_MMIO_QUEUE_USED_HIGH: u64 = 0x0a4;
/// Offset of the configuration generation register.
pub const VIRTIO_MMIO_CONFIG_GENERATION: u64 = 0x0fc;
/// Offset of the device-specific configuration space.
pub const VIRTIO_MMIO_CONFIG: u64 = 0x100;

/// The value of the magic register: "virt" in little-endian.
pub const MMIO_MAGIC_VALUE: u32 = 0x7472_6976;
/// The MMIO transport version implemented (Virtio 1.x).
pub const MMIO_VERSION: u32 = 2;
/// The vendor id reported to the driver.
pub const VENDOR_ID: u32 = 0;

/// Interrupt status bit: the device used buffers of a queue.
pub const VIRTIO_MMIO_INT_VRING: u8 = 0x01;
/// Interrupt status bit: the device configuration changed.
pub const VIRTIO_MMIO_INT_CONFIG: u8 = 0x02;

/// Size of the MMIO window of one device.
pub const MMIO_WINDOW_SIZE: u64 = 0x200;

/// Errors in building an MMIO configuration.
#[derive(Clone, Copy, Debug, PartialEq, Eq, Structural)]
pub enum Error {
    /// The range is empty or runs past the end of the address space.
    InvalidRange,
    /// The next range would start past the end of the address space.
    Overflow,
}

/// A non-empty range of MMIO addresses, `[base, base + size)`.
#[derive(Clone, Copy, Debug, PartialEq, Eq, Structural)]
pub struct MmioRange {
    pub base: u64,
    pub size: u64,
}

impl MmioRange {
    /// The range lies within the 64-bit address space and is not empty.
    pub open spec fn wf(&self) -> bool {
        self.size > 0 && self.base + self.size <= u64::MAX + 1
    }

    /// The range holds `addr`.
    pub open spec fn contains(&self, addr: int) -> bool {
        self.base <= addr < self.base + self.size
    }

    /// The two ranges share an address.
    pub open spec fn overlaps(&self, other: MmioRange) -> bool {
        self.base < other.base + other.size && other.base < self.base + self.size
    }

    /// Builds the range `[base, base + size)`; fails when it is empty or
    /// does not fit in the address space.
    pub fn new(base: u64, size: u64) -> (r: std::result::Result<MmioRange, Error>)
        ensures
            r is Ok <==> size > 0 && base + size <= u64::MAX + 1,
            r matches Ok(range) ==> range.base == base && range.size == size && range.wf(),
            r matches Err(e) ==> e == Error::InvalidRange,
    {
        if size == 0 || base > u64::MAX - (size - 1) {
            Err(Error::InvalidRange)
        } else {
            Ok(MmioRange { base, size })
        }
    }

    /// The last address of the range.
    pub fn last(&self) -> (r: u64)
        requires
            self.wf(),
        ensures
            r == self.base + self.size - 1,
    {
        self.base + (self.size - 1)
    }
}

/// The MMIO window of a device and the interrupt line assigned to it.
#[derive(Clone, Copy, Debug, PartialEq, Eq, Structural)]
pub struct MmioConfig {
    pub range: MmioRange,
    pub gsi: u32,
}

impl MmioConfig {
    /// Builds the configuration of the window `[base, base + size)` with
    /// interrupt `gsi`.
    pub fn new(base: u64, size: u64, gsi: u32) -> (r: std::result::Result<MmioConfig, Error>)
        ensures
            r is Ok <==> size > 0 && base + size <= u64::MAX + 1,
            r matches Ok(c) ==> c.range.base == base && c.range.size == size && c.range.wf()
                && c.gsi == gsi,
            r matches Err(e) ==> e == Error::InvalidRange,
    {
        match MmioRange::new(base, size) {
            Ok(range) => Ok(MmioConfig { range, gsi }),
            Err(e) => Err(e),
        }
    }

    /// The configuration of the window that follows this one, of the same
    /// size, with the next interrupt line.
    pub fn next(&self) -> (r: std::result::Result<MmioConfig, Error>)
        requires
            self.range.wf(),
            self.gsi < u32::MAX,
        ensures
            self.range.base + 2 * self.range.size <= u64::MAX + 1 ==> (r matches Ok(ok_v) && ok_v == MmioConfig {
                    range: MmioRange {
                        base: (self.range.base + self.range.size) as u64,
                        size: self.range.size,
                    },
                    gsi: (self.gsi + 1) as u32,
                }),
            self.range.base + self.range.size > u64::MAX ==> (r matches Err(err_v) && err_v == Error::Overflow),
            self.range.base + self.range.size <= u64::MAX && self.range.base + 2 * self.range.size
                > u64::MAX + 1 ==> (r matches Err(err_v) && err_v == Error::InvalidRange),
    {
        let range = self.range;
        if range.base > u64::MAX - range.size {
            return Err(Error::Overflow);
        }
        let next_start = range.base + range.size;
        MmioConfig::new(next_start, range.size, self.gsi + 1)
    }
}

} // verus!
