//! Device kinds, dataplanes, and the generic device core: construction of
//! the register state, activation, and MMIO access.

use crate::config::{ConfigView, VirtioConfig, WriteEffect, FAILED, VERSION_1_MASK};
use crate::defines::BAO_IOEVENTFD_FLAG_DATAMATCH;
use crate::error::{Error, Result};
use crate::mmio::{
    MmioConfig, MMIO_WINDOW_SIZE, VIRTIO_MMIO_INTERRUPT_STATUS, VIRTIO_MMIO_INT_VRING,
    VIRTIO_MMIO_QUEUE_NOTIFY_OFFSET,
};
use crate::net::{mac_address_to_bytes, spec_mac_bytes};
use crate::queue::{is_power_of_two, QueueState};
use crate::strings::{owned, str_eq};
use crate::types::{BaoIoEventFd, DeviceConfig};
use vstd::prelude::*;
use vstd::string::StringExecFns;

verus! {

/// Virtio device kinds, with the ids of the Virtio specification.
#[derive(Clone, Copy, Debug, PartialEq, Eq, Structural)]
pub enum VirtioDevType {
    Net,
    Block,
    Console,
    Rng,
    Balloon,
    Fs9P,
    Gpu,
    Input,
    Vsock,
    Iommu,
    Mem,
    Fs,
    Pmem,
    I2c,
    Watchdog,
    Gpio,
    Unknown,
}

impl VirtioDevType {
    /// The Virtio device id of the kind.
    pub open spec fn spec_id(self) -> u32 {
        match self {
            VirtioDevType::Net => 1,
            VirtioDevType::Block => 2,
            VirtioDevType::Console => 3,
            VirtioDevType::Rng => 4,
            VirtioDevType::Balloon => 5,
            VirtioDevType::Fs9P => 9,
            VirtioDevType::Gpu => 16,
            VirtioDevType::Input => 18,
            VirtioDevType::Vsock => 19,
            VirtioDevType::Iommu => 23,
            VirtioDevType::Mem => 24,
            VirtioDevType::Fs => 26,
            VirtioDevType::Pmem => 27,
            VirtioDevType::I2c => 34,
            VirtioDevType::Watchdog => 35,
            VirtioDevType::Gpio => 41,
            VirtioDevType::Unknown => 0xff,
        }
    }

    /// The Virtio device id of the kind.
    pub fn id(&self) -> (r: u32)
        ensures
            r == self.spec_id(),
    {
        match self {
            VirtioDevType::Net => 1,
            VirtioDevType::Block => 2,
            VirtioDevType::Console => 3,
            VirtioDevType::Rng => 4,
            VirtioDevType::Balloon => 5,
            VirtioDevType::Fs9P => 9,
            VirtioDevType::Gpu => 16,
            VirtioDevType::Input => 18,
            VirtioDevType::Vsock => 19,
            VirtioDevType::Iommu => 23,
            VirtioDevType::Mem => 24,
            VirtioDevType::Fs => 26,
            VirtioDevType::Pmem => 27,
            VirtioDevType::I2c => 34,
            VirtioDevType::Watchdog => 35,
            VirtioDevType::Gpio => 41,
            VirtioDevType::Unknown => 0xff,
        }
    }

    /// The kind whose Virtio device id is `t`; `Unknown` for an id of no kind.
    pub open spec fn spec_from_id(t: u32) -> VirtioDevType {
        if t == 1 {
            VirtioDevType::Net
        } else if t == 2 {
            VirtioDevType::Block
        } else if t == 3 {
            VirtioDevType::Console
        } else if t == 4 {
            VirtioDevType::Rng
        } else if t == 5 {
            VirtioDevType::Balloon
        } else if t == 9 {
            VirtioDevType::Fs9P
        } else if t == 16 {
            VirtioDevType::Gpu
        } else if t == 18 {
            VirtioDevType::Input
        } else if t == 19 {
            VirtioDevType::Vsock
        } else if t == 23 {
            VirtioDevType::Iommu
        } else if t == 24 {
            VirtioDevType::Mem
        } else if t == 26 {
            VirtioDevType::Fs
        } else if t == 27 {
            VirtioDevType::Pmem
        } else if t == 34 {
            VirtioDevType::I2c
        } else if t == 35 {
            VirtioDevType::Watchdog
        } else if t == 41 {
            VirtioDevType::Gpio
        } else {
            VirtioDevType::Unknown
        }
    }

    /// The kind with Virtio device id `t`.
    pub fn from_id(t: u32) -> (r: VirtioDevType)
        ensures
            r == VirtioDevType::spec_from_id(t),
            r != VirtioDevType::Unknown ==> r.spec_id() == t,
    {
        match t {
            1 => VirtioDevType::Net,
            2 => VirtioDevType::Block,
            3 => VirtioDevType::Console,
            4 => VirtioDevType::Rng,
            5 => VirtioDevType::Balloon,
            9 => VirtioDevType::Fs9P,
            16 => VirtioDevType::Gpu,
            18 => VirtioDevType::Input,
            19 => VirtioDevType::Vsock,
            23 => VirtioDevType::Iommu,
            24 => VirtioDevType::Mem,
            26 => VirtioDevType::Fs,
            27 => VirtioDevType::Pmem,
            34 => VirtioDevType::I2c,
            35 => VirtioDevType::Watchdog,
            41 => VirtioDevType::Gpio,
            _ => VirtioDevType::Unknown,
        }
    }

    /// The name under which the kind is reported (the 9P file system is
    /// reported as `9p`, though configuration files name it `fs9p`).
    pub open spec fn spec_name(self) -> Seq<char> {
        match self {
            VirtioDevType::Net => "net"@,
            VirtioDevType::Block => "block"@,
            VirtioDevType::Console => "console"@,
            VirtioDevType::Rng => "rng"@,
            VirtioDevType::Balloon => "balloon"@,
            VirtioDevType::Fs9P => "9p"@,
            VirtioDevType::Gpu => "gpu"@,
            VirtioDevType::Input => "input"@,
            VirtioDevType::Vsock => "vsock"@,
            VirtioDevType::Iommu => "iommu"@,
            VirtioDevType::Mem => "mem"@,
            VirtioDevType::Fs => "fs"@,
            VirtioDevType::Pmem => "pmem"@,
            VirtioDevType::I2c => "i2c"@,
            VirtioDevType::Watchdog => "watchdog"@,
            VirtioDevType::Gpio => "gpio"@,
            VirtioDevType::Unknown => "UNKNOWN"@,
        }
    }

    /// The kind a configuration file names `t`: the kind whose name is `t`,
    /// or `Unknown`.
    pub open spec fn spec_from_name(t: Seq<char>) -> VirtioDevType {
        if t == "net"@ {
            VirtioDevType::Net
        } else if t == "block"@ {
            VirtioDevType::Block
        } else if t == "console"@ {
            VirtioDevType::Console
        } else if t == "rng"@ {
            VirtioDevType::Rng
        } else if t == "balloon"@ {
            VirtioDevType::Balloon
        } else if t == "fs9p"@ {
            VirtioDevType::Fs9P
        } else if t == "gpu"@ {
            VirtioDevType::Gpu
        } else if t == "input"@ {
            VirtioDevType::Input
        } else if t == "vsock"@ {
            VirtioDevType::Vsock
        } else if t == "iommu"@ {
            VirtioDevType::Iommu
        } else if t == "mem"@ {
            VirtioDevType::Mem
        } else if t == "fs"@ {
            VirtioDevType::Fs
        } else if t == "pmem"@ {
            VirtioDevType::Pmem
        } else if t == "i2c"@ {
            VirtioDevType::I2c
        } else if t == "watchdog"@ {
            VirtioDevType::Watchdog
        } else if t == "gpio"@ {
            VirtioDevType::Gpio
        } else {
            VirtioDevType::Unknown
        }
    }

    /// The kind named `t` in a configuration file.
    pub fn from_name(t: &str) -> (r: VirtioDevType)
        ensures
            r == VirtioDevType::spec_from_name(t@),
    {
        if str_eq(t, "net") {
            VirtioDevType::Net
        } else if str_eq(t, "block") {
            VirtioDevType::Block
        } else if str_eq(t, "console") {
            VirtioDevType::Console
        } else if str_eq(t, "rng") {
            VirtioDevType::Rng
        } else if str_eq(t, "balloon") {
            VirtioDevType::Balloon
        } else if str_eq(t, "fs9p") {
            VirtioDevType::Fs9P
        } else if str_eq(t, "gpu") {
            VirtioDevType::Gpu
        } else if str_eq(t, "input") {
            VirtioDevType::Input
        } else if str_eq(t, "vsock") {
            VirtioDevType::Vsock
        } else if str_eq(t, "iommu") {
            VirtioDevType::Iommu
        } else if str_eq(t, "mem") {
            VirtioDevType::Mem
        } else if str_eq(t, "fs") {
            VirtioDevType::Fs
        } else if str_eq(t, "pmem") {
            VirtioDevType::Pmem
        } else if str_eq(t, "i2c") {
            VirtioDevType::I2c
        } else if str_eq(t, "watchdog") {
            VirtioDevType::Watchdog
        } else if str_eq(t, "gpio") {
            VirtioDevType::Gpio
        } else {
            VirtioDevType::Unknown
        }
    }

    /// The display form of the kind, as used in messages.
    pub open spec fn spec_display(self) -> Seq<char> {
        match self {
            VirtioDevType::Net => "Net"@,
            VirtioDevType::Block => "Block"@,
            VirtioDevType::Console => "Console"@,
            VirtioDevType::Rng => "Rng"@,
            VirtioDevType::Balloon => "Balloon"@,
            VirtioDevType::Fs9P => "Fs9P"@,
            VirtioDevType::Gpu => "Gpu"@,
            VirtioDevType::Input => "Input"@,
            VirtioDevType::Vsock => "Vsock"@,
            VirtioDevType::Iommu => "Iommu"@,
            VirtioDevType::Mem => "Mem"@,
            VirtioDevType::Fs => "Fs"@,
            VirtioDevType::Pmem => "Pmem"@,
            VirtioDevType::I2c => "I2c"@,
            VirtioDevType::Watchdog => "Watchdog"@,
            VirtioDevType::Gpio => "Gpio"@,
            VirtioDevType::Unknown => "Unknown"@,
        }
    }

    /// The display form of the kind.
    pub fn to_string(&self) -> (r: String)
        ensures
            r@ == self.spec_display(),
    {
        owned(
            match self {
                VirtioDevType::Net => "Net",
                VirtioDevType::Block => "Block",
                VirtioDevType::Console => "Console",
                VirtioDevType::Rng => "Rng",
                VirtioDevType::Balloon => "Balloon",
                VirtioDevType::Fs9P => "Fs9P",
                VirtioDevType::Gpu => "Gpu",
                VirtioDevType::Input => "Input",
                VirtioDevType::Vsock => "Vsock",
                VirtioDevType::Iommu => "Iommu",
                VirtioDevType::Mem => "Mem",
                VirtioDevType::Fs => "Fs",
                VirtioDevType::Pmem => "Pmem",
                VirtioDevType::I2c => "I2c",
                VirtioDevType::Watchdog => "Watchdog",
                VirtioDevType::Gpio => "Gpio",
                VirtioDevType::Unknown => "Unknown",
            },
        )
    }

    /// The name of the kind in configuration files.
    pub fn name(&self) -> (r: String)
        ensures
            r@ == self.spec_name(),
    {
        owned(
            match self {
                VirtioDevType::Net => "net",
                VirtioDevType::Block => "block",
                VirtioDevType::Console => "console",
                VirtioDevType::Rng => "rng",
                VirtioDevType::Balloon => "balloon",
                VirtioDevType::Fs9P => "9p",
                VirtioDevType::Gpu => "gpu",
                VirtioDevType::Input => "input",
                VirtioDevType::Vsock => "vsock",
                VirtioDevType::Iommu => "iommu",
                VirtioDevType::Mem => "mem",
                VirtioDevType::Fs => "fs",
                VirtioDevType::Pmem => "pmem",
                VirtioDevType::I2c => "i2c",
                VirtioDevType::Watchdog => "watchdog",
                VirtioDevType::Gpio => "gpio",
                VirtioDevType::Unknown => "UNKNOWN",
            },
        )
    }

    /// The number of queues of the kind and the maximum size of each.
    pub open spec fn spec_queue_num_and_size(self) -> (usize, usize) {
        match self {
            VirtioDevType::Net => (2, 1024),
            VirtioDevType::Block => (1, 256),
            VirtioDevType::Rng => (1, 1024),
            VirtioDevType::Vsock => (3, 1024),
            VirtioDevType::Fs => (2, 1024),
            VirtioDevType::I2c => (1, 1024),
            VirtioDevType::Gpio => (2, 256),
            _ => (0, 0),
        }
    }

    /// Returns the number of queues and the queue size for the device type.
    pub fn queue_num_and_size(&self) -> (r: (usize, usize))
        ensures
            r == self.spec_queue_num_and_size(),
    {
        match self {
            VirtioDevType::Net => (2, 1024),
            VirtioDevType::Block => (1, 256),
            VirtioDevType::Rng => (1, 1024),
            VirtioDevType::Vsock => (3, 1024),
            VirtioDevType::Fs => (2, 1024),
            VirtioDevType::I2c => (1, 1024),
            VirtioDevType::Gpio => (2, 256),
            _ => (0, 0),
        }
    }
}

/// Where a device's queues are processed: in this process, in the kernel
/// (vhost), or in another process (vhost-user).
#[derive(Clone, Copy, Debug, PartialEq, Eq, Structural)]
pub enum VirtioDataPlane {
    Virtio,
    Vhost,
    VhostUser,
    Unknown,
}

impl VirtioDataPlane {
    /// The dataplane numbered `t`: 0, 1 and 2 in declaration order.
    pub fn from_id(t: u32) -> (r: VirtioDataPlane)
        ensures
            r == (if t == 0 {
                VirtioDataPlane::Virtio
            } else if t == 1 {
                VirtioDataPlane::Vhost
            } else if t == 2 {
                VirtioDataPlane::VhostUser
            } else {
                VirtioDataPlane::Unknown
            }),
    {
        match t {
            0 => VirtioDataPlane::Virtio,
            1 => VirtioDataPlane::Vhost,
            2 => VirtioDataPlane::VhostUser,
            _ => VirtioDataPlane::Unknown,
        }
    }

    /// The dataplane a configuration file names `t`.
    pub open spec fn spec_from_name(t: Seq<char>) -> VirtioDataPlane {
        if t == "virtio"@ {
            VirtioDataPlane::Virtio
        } else if t == "vhost"@ {
            VirtioDataPlane::Vhost
        } else if t == "vhost_user"@ {
            VirtioDataPlane::VhostUser
        } else {
            VirtioDataPlane::Unknown
        }
    }

    /// The dataplane named `t` in a configuration file.
    pub fn from_name(t: &str) -> (r: VirtioDataPlane)
        ensures
            r == VirtioDataPlane::spec_from_name(t@),
    {
        if str_eq(t, "virtio") {
            VirtioDataPlane::Virtio
        } else if str_eq(t, "vhost") {
            VirtioDataPlane::Vhost
        } else if str_eq(t, "vhost_user") {
            VirtioDataPlane::VhostUser
        } else {
            VirtioDataPlane::Unknown
        }
    }

    /// The name of the dataplane in configuration files.
    pub open spec fn spec_name(self) -> Seq<char> {
        match self {
            VirtioDataPlane::Virtio => "virtio"@,
            VirtioDataPlane::Vhost => "vhost"@,
            VirtioDataPlane::VhostUser => "vhost_user"@,
            VirtioDataPlane::Unknown => "UNKNOWN"@,
        }
    }

    /// The name of the dataplane in configuration files.
    pub fn name(&self) -> (r: String)
        ensures
            r@ == self.spec_name(),
    {
        owned(
            match self {
                VirtioDataPlane::Virtio => "virtio",
                VirtioDataPlane::Vhost => "vhost",
                VirtioDataPlane::VhostUser => "vhost_user",
                VirtioDataPlane::Unknown => "UNKNOWN",
            },
        )
    }

    /// The display form of the dataplane.
    pub open spec fn spec_display(self) -> Seq<char> {
        match self {
            VirtioDataPlane::Virtio => "Virtio"@,
            VirtioDataPlane::Vhost => "Vhost"@,
            VirtioDataPlane::VhostUser => "VhostUser"@,
            VirtioDataPlane::Unknown => "Unknown"@,
        }
    }

    /// The display form of the dataplane.
    pub fn to_string(&self) -> (r: String)
        ensures
            r@ == self.spec_display(),
    {
        owned(
            match self {
                VirtioDataPlane::Virtio => "Virtio",
                VirtioDataPlane::Vhost => "Vhost",
                VirtioDataPlane::VhostUser => "VhostUser",
                VirtioDataPlane::Unknown => "Unknown",
            },
        )
    }
}

/// Features every device offers: VERSION_1 (bit 32), IOMMU_PLATFORM
/// (bit 33) and IN_ORDER (bit 35).
pub const COMMON_FEATURES: u64 = 0xB_0000_0000;
/// Block feature: the device is read-only (bit 5).
pub const VIRTIO_BLK_F_RO_MASK: u64 = 0x20;
/// Block feature: the device supports cache flush (bit 9).
pub const VIRTIO_BLK_F_FLUSH_MASK: u64 = 0x200;
/// Features of the in-process network device: checksum and segmentation
/// offloads in both directions (bits 0, 1, 7, 8, 10, 11, 12, 14),
/// RING_EVENT_IDX (bit 29) and IN_ORDER (bit 35).
pub const VIRTIO_NET_FEATURES: u64 = 0x8_2000_5D83;
/// Network feature: the device has a MAC address (bit 5).
pub const VIRTIO_NET_F_MAC_MASK: u64 = 0x20;
/// Features the kernel vhost backends handle.
pub const VHOST_FEATURES: u64 = 0x1_3D00_0000;
/// Features of the vhost network device: MRG_RXBUF (bit 15), NOTIFY_ON_EMPTY
/// (bit 24), INDIRECT_DESC (bit 28), RING_EVENT_IDX (bit 29), RING_RESET
/// (bit 40), and the vhost features.
pub const VHOST_NET_FEATURES: u64 = 0x101_3D00_8000;
/// Features of the vhost vsock device: SEQPACKET (bit 1) and the vhost
/// features.
pub const VHOST_VSOCK_FEATURES: u64 = 0x1_3D00_0002;
/// Features of the console device: IN_ORDER (bit 35).
pub const VIRTIO_CONSOLE_FEATURES: u64 = 0x8_0000_0000;
/// Block sectors are 512 bytes.
pub const SECTOR_SHIFT: u64 = 9;

/// The eight little-endian bytes of `v`.
pub open spec fn le_bytes64(v: u64) -> Seq<u8> {
    Seq::new(8, |i: int| (v >> (8 * i) as u64) as u8)
}

/// Appends the eight little-endian bytes of `v` to `out`.
pub fn push_le64(out: &mut Vec<u8>, v: u64)
    ensures
        final(out)@ == old(out)@ + le_bytes64(v),
{
    let ghost start = out@;
    let mut i: u64 = 0;
    while i < 8
        invariant
            i <= 8,
            out@.len() == start.len() + i,
            out@.subrange(0, start.len() as int) == start,
            forall|k: int|
                start.len() <= k < start.len() + i ==> #[trigger] out@[k] == (v >> (8 * (k
                    - start.len())) as u64) as u8,
        decreases 8 - i,
    {
        out.push((v >> (8 * i)) as u8);
        i = i + 1;
    }
    assert(out@ =~= start + le_bytes64(v));
}

/// The feature bits of a block device: read-only and flush as configured;
/// an absent option counts as not set.
pub open spec fn spec_block_features(read_only: Option<bool>, advertise_flush: Option<bool>) -> u64 {
    (if read_only == Some(true) {
        VIRTIO_BLK_F_RO_MASK
    } else {
        0
    }) | (if advertise_flush == Some(true) {
        VIRTIO_BLK_F_FLUSH_MASK
    } else {
        0
    })
}

/// The device-specific feature bits of a block device.
pub fn block_device_features(config: &DeviceConfig) -> (r: u64)
    ensures
        r == spec_block_features(config.read_only, config.advertise_flush),
{
    let ro: u64 = match config.read_only {
        Some(true) => VIRTIO_BLK_F_RO_MASK,
        _ => 0,
    };
    let flush: u64 = match config.advertise_flush {
        Some(true) => VIRTIO_BLK_F_FLUSH_MASK,
        _ => 0,
    };
    ro | flush
}

/// The configuration space of a block device backed by `file_size` bytes:
/// its capacity in whole sectors, little-endian.
pub fn block_config_space(file_size: u64) -> (r: Vec<u8>)
    ensures
        r@ == le_bytes64(file_size >> SECTOR_SHIFT),
{
    let mut out: Vec<u8> = Vec::new();
    push_le64(&mut out, file_size >> SECTOR_SHIFT);
    assert(out@ =~= le_bytes64(file_size >> SECTOR_SHIFT));
    out
}

/// The configuration space of a console: 80 columns, 25 rows and one port,
/// little-endian.
pub fn console_config_space() -> (r: Vec<u8>)
    ensures
        r@ == seq![80u8, 0u8, 25u8, 0u8, 1u8, 0u8, 0u8, 0u8],
{
    let r: Vec<u8> = vec![80u8, 0u8, 25u8, 0u8, 1u8, 0u8, 0u8, 0u8];
    assert(r@ =~= seq![80u8, 0u8, 25u8, 0u8, 1u8, 0u8, 0u8, 0u8]);
    r
}

/// The device-specific feature bits of an in-process network device.
pub fn net_device_features(config: &DeviceConfig) -> (r: u64)
    ensures
        r == (if config.mac_addr is Some {
            VIRTIO_NET_FEATURES | VIRTIO_NET_F_MAC_MASK
        } else {
            VIRTIO_NET_FEATURES
        }),
{
    if config.mac_addr.is_some() {
        VIRTIO_NET_FEATURES | VIRTIO_NET_F_MAC_MASK
    } else {
        VIRTIO_NET_FEATURES
    }
}

/// The configuration space of a vhost vsock device: the guest's context id,
/// little-endian.
pub fn vsock_config_space(guest_cid: u64) -> (r: Vec<u8>)
    ensures
        r@ == le_bytes64(guest_cid),
{
    let mut out: Vec<u8> = Vec::new();
    push_le64(&mut out, guest_cid);
    assert(out@ =~= le_bytes64(guest_cid));
    out
}

/// The configuration space of a network device: its MAC address when one
/// is configured, empty otherwise. A MAC address that does not parse is a
/// `ParseFailure`.
pub fn net_config_space(config: &DeviceConfig) -> (r: Result<Vec<u8>>)
    ensures
        match config.mac_addr {
            None => (r matches Ok(v) && v@.len() == 0),
            Some(m) => match spec_mac_bytes(m@) {
                Some(b) => (r matches Ok(v) && v@ == b),
                None => (r matches Err(e) && e == Error::ParseFailure),
            },
        },
{
    match &config.mac_addr {
        None => Ok(Vec::new()),
        Some(m) => match mac_address_to_bytes(m.as_str()) {
            Some(b) => Ok(b),
            None => Err(Error::ParseFailure),
        },
    }
}

/// The device-specific feature bits of a console.
pub fn console_device_features() -> (r: u64)
    ensures
        r == VIRTIO_CONSOLE_FEATURES,
{
    VIRTIO_CONSOLE_FEATURES
}

/// The device-specific feature bits of a vhost network device.
pub fn vhost_net_device_features() -> (r: u64)
    ensures
        r == VHOST_NET_FEATURES,
{
    VHOST_NET_FEATURES
}

/// The device-specific feature bits of a vhost vsock device.
pub fn vhost_vsock_device_features() -> (r: u64)
    ensures
        r == VHOST_VSOCK_FEATURES,
{
    VHOST_VSOCK_FEATURES
}

/// The socket of a vhost-user backend of kind `kind`: the configured
/// directory or prefix followed by the kind's name and `.sock`.
pub fn vhost_user_socket_path(socket_path: &str, kind: VirtioDevType) -> (r: String)
    ensures
        r@ == socket_path@ + kind.spec_name() + ".sock"@,
{
    let mut r = owned(socket_path);
    let name = kind.name();
    r.append(name.as_str());
    r.append(".sock");
    r
}

/// The queues a device of kind `kind` starts with: as many as the kind has,
/// each not ready and sized at the kind's maximum.
pub open spec fn spec_initial_queues(kind: VirtioDevType) -> Seq<QueueState> {
    Seq::new(
        kind.spec_queue_num_and_size().0 as nat,
        |i: int| QueueState::initial(kind.spec_queue_num_and_size().1 as u16),
    )
}

/// The common feature bits and the initial queues of a device of the kind
/// named in `config`.
pub fn initialize(config: &DeviceConfig) -> (r: (u64, Vec<QueueState>))
    ensures
        r.0 == COMMON_FEATURES,
        r.1@ == spec_initial_queues(VirtioDevType::spec_from_name(config.device_type@)),
{
    let kind = VirtioDevType::from_name(config.device_type.as_str());
    let (num, size) = kind.queue_num_and_size();
    proof {
        assert(256u16 & 255u16 == 0) by (bit_vector);
        assert(1024u16 & 1023u16 == 0) by (bit_vector);
        assert(is_power_of_two(256u16));
        assert(is_power_of_two(1024u16));
    }
    let mut queues: Vec<QueueState> = Vec::new();
    let mut i: usize = 0;
    while i < num
        invariant
            i <= num,
            (num, size) == kind.spec_queue_num_and_size(),
            num > 0 ==> (size == 256 || size == 1024),
            is_power_of_two(256u16),
            is_power_of_two(1024u16),
            queues@.len() == i,
            forall|k: int| 0 <= k < i ==> queues@[k] == QueueState::initial(size as u16),
        decreases num - i,
    {
        queues.push(QueueState::new(size as u16));
        i = i + 1;
    }
    assert(queues@ =~= spec_initial_queues(kind));
    (COMMON_FEATURES, queues)
}

/// The device variants this backend can run: a kind on a dataplane.
#[derive(Clone, Copy, Debug, PartialEq, Eq, Structural)]
pub enum VirtioDeviceType {
    VirtioBlock,
    VhostUserFs,
    VhostVsock,
    VhostNet,
    VhostUserVsock,
    VirtioNet,
    VirtioConsole,
    Unknown,
}

impl VirtioDeviceType {
    /// The variant serving kind `kind` on dataplane `plane`, if the backend
    /// has one.
    pub open spec fn spec_select(kind: VirtioDevType, plane: VirtioDataPlane) -> Option<
        VirtioDeviceType,
    > {
        match (kind, plane) {
            (VirtioDevType::Block, VirtioDataPlane::Virtio) => Some(VirtioDeviceType::VirtioBlock),
            (VirtioDevType::Fs, VirtioDataPlane::VhostUser) => Some(VirtioDeviceType::VhostUserFs),
            (VirtioDevType::Vsock, VirtioDataPlane::Vhost) => Some(VirtioDeviceType::VhostVsock),
            (VirtioDevType::Vsock, VirtioDataPlane::VhostUser) => Some(
                VirtioDeviceType::VhostUserVsock,
            ),
            (VirtioDevType::Net, VirtioDataPlane::Virtio) => Some(VirtioDeviceType::VirtioNet),
            (VirtioDevType::Net, VirtioDataPlane::Vhost) => Some(VirtioDeviceType::VhostNet),
            (VirtioDevType::Console, VirtioDataPlane::Virtio) => Some(
                VirtioDeviceType::VirtioConsole,
            ),
            _ => None,
        }
    }

    /// The variant for the kind and dataplane named in `config`; a pair the
    /// backend cannot run is a `WrongDeviceConfiguration` naming both.
    pub fn select(config: &DeviceConfig) -> (r: Result<VirtioDeviceType>)
        ensures
            ({
                let kind = VirtioDevType::spec_from_name(config.device_type@);
                let plane = VirtioDataPlane::spec_from_name(config.data_plane@);
                match VirtioDeviceType::spec_select(kind, plane) {
                    Some(v) => (r matches Ok(ok_v) && ok_v == v),
                    None => r matches Err(Error::WrongDeviceConfiguration(k, p)) && k@
                        == kind.spec_display() && p@ == plane.spec_display(),
                }
            }),
    {
        let kind = VirtioDevType::from_name(config.device_type.as_str());
        let plane = VirtioDataPlane::from_name(config.data_plane.as_str());
        match (kind, plane) {
            (VirtioDevType::Block, VirtioDataPlane::Virtio) => Ok(VirtioDeviceType::VirtioBlock),
            (VirtioDevType::Fs, VirtioDataPlane::VhostUser) => Ok(VirtioDeviceType::VhostUserFs),
            (VirtioDevType::Vsock, VirtioDataPlane::Vhost) => Ok(VirtioDeviceType::VhostVsock),
            (VirtioDevType::Vsock, VirtioDataPlane::VhostUser) => Ok(
                VirtioDeviceType::VhostUserVsock,
            ),
            (VirtioDevType::Net, VirtioDataPlane::Virtio) => Ok(VirtioDeviceType::VirtioNet),
            (VirtioDevType::Net, VirtioDataPlane::Vhost) => Ok(VirtioDeviceType::VhostNet),
            (VirtioDevType::Console, VirtioDataPlane::Virtio) => Ok(
                VirtioDeviceType::VirtioConsole,
            ),
            _ => Err(Error::WrongDeviceConfiguration(kind.to_string(), plane.to_string())),
        }
    }
}

/// The generic part of an emulated device: its kind, its dataplane, its
/// register state and its MMIO window.
pub struct VirtioDeviceCommon {
    pub device_type: VirtioDevType,
    pub data_plane: VirtioDataPlane,
    pub config: VirtioConfig,
    pub mmio: MmioConfig,
}

/// Mathematical view of a device.
pub struct DeviceView {
    pub device_type: VirtioDevType,
    pub data_plane: VirtioDataPlane,
    pub config: ConfigView,
    pub mmio: MmioConfig,
}

impl View for VirtioDeviceCommon {
    type V = DeviceView;

    open spec fn view(&self) -> DeviceView {
        DeviceView {
            device_type: self.device_type,
            data_plane: self.data_plane,
            config: self.config@,
            mmio: self.mmio,
        }
    }
}

/// The register state with the used-buffer interrupt bit raised.
pub open spec fn with_vring_interrupt(m: ConfigView) -> ConfigView {
    ConfigView { interrupt_status: m.interrupt_status | VIRTIO_MMIO_INT_VRING, ..m }
}

/// The register state moved to FAILED.
pub open spec fn with_failed(m: ConfigView) -> ConfigView {
    ConfigView { device_status: m.device_status | FAILED, ..m }
}

/// The register state a read of `offset` starts from: backends outside this
/// process cannot raise the interrupt status themselves, so a read of it
/// raises the used-buffer bit on their behalf.
pub open spec fn read_state(d: DeviceView, offset: u64) -> ConfigView {
    if d.data_plane != VirtioDataPlane::Virtio && offset == VIRTIO_MMIO_INTERRUPT_STATUS {
        with_vring_interrupt(d.config)
    } else {
        d.config
    }
}

/// The device with its register state replaced by `c`.
pub open spec fn with_config(d: DeviceView, c: ConfigView) -> DeviceView {
    DeviceView { config: c, ..d }
}

/// The outcome of preparing activation: a device that is already active,
/// or whose driver did not accept VERSION_1, moves to FAILED and reports why;
/// any other is unchanged and reports how many queues need an ioeventfd.
pub open spec fn spec_prepare_activate(d: DeviceView) -> (DeviceView, Result<usize>) {
    if d.config.device_activated {
        (with_config(d, with_failed(d.config)), Err(Error::DeviceAlreadyActivated))
    } else if d.config.driver_features & VERSION_1_MASK == 0 {
        (
            with_config(d, with_failed(d.config)),
            Err(Error::DeviceBadFeatures(d.config.driver_features)),
        )
    } else {
        (d, Ok(d.config.queues.len() as usize))
    }
}

impl VirtioDeviceCommon {
    /// The device owns a window of `MMIO_WINDOW_SIZE` bytes inside the
    /// address space.
    pub open spec fn wf(&self) -> bool {
        self.mmio.range.wf() && self.mmio.range.size == MMIO_WINDOW_SIZE
    }

    /// Creates the device of `config` over the register state `virtio`; its
    /// window starts at the configured MMIO address and its interrupt is the
    /// configured one. A window that does not fit in the address space is an
    /// `MmioConfig` error.
    pub fn new(config: &DeviceConfig, virtio: VirtioConfig) -> (r: Result<VirtioDeviceCommon>)
        ensures
            r is Ok <==> config.mmio_addr + MMIO_WINDOW_SIZE <= u64::MAX + 1,
            r matches Ok(d) ==> d.wf() && d.mmio.range.base == config.mmio_addr && d.mmio.gsi
                == config.irq && d.config@ == virtio@ && d.device_type
                == VirtioDevType::spec_from_name(config.device_type@) && d.data_plane
                == VirtioDataPlane::spec_from_name(config.data_plane@),
            r matches Err(e) ==> e == Error::MmioConfig,
    {
        let mmio = match MmioConfig::new(config.mmio_addr, MMIO_WINDOW_SIZE, config.irq) {
            Ok(m) => m,
            Err(_) => {
                return Err(Error::MmioConfig);
            },
        };
        Ok(
            VirtioDeviceCommon {
                device_type: VirtioDevType::from_name(config.device_type.as_str()),
                data_plane: VirtioDataPlane::from_name(config.data_plane.as_str()),
                config: virtio,
                mmio,
            },
        )
    }

    /// Checks that the device may be activated and returns how many queues
    /// need an ioeventfd. A device that is already active fails with
    /// `DeviceAlreadyActivated`, one whose driver did not accept VERSION_1
    /// with `DeviceBadFeatures`; either failure moves it to FAILED.
    pub fn prepare_activate(&mut self) -> (r: Result<usize>)
        ensures
            (final(self)@, r) == spec_prepare_activate(old(self)@),
    {
        if self.config.device_activated {
            self.config.device_status = self.config.device_status | FAILED;
            return Err(Error::DeviceAlreadyActivated);
        }
        if self.config.driver_features & VERSION_1_MASK == 0 {
            self.config.device_status = self.config.device_status | FAILED;
            return Err(Error::DeviceBadFeatures(self.config.driver_features));
        }
        Ok(self.config.queues.len())
    }

    /// The registration asking the hypervisor to raise `fd` when the guest
    /// notifies queue `queue`: a data-matched write of the queue index to the
    /// device's QueueNotify register.
    pub fn ioeventfd_request(&self, fd: u32, queue: usize) -> (r: BaoIoEventFd)
        requires
            self.wf(),
        ensures
            r == (BaoIoEventFd {
                fd,
                flags: BAO_IOEVENTFD_FLAG_DATAMATCH,
                addr: (self.mmio.range.base + VIRTIO_MMIO_QUEUE_NOTIFY_OFFSET) as u64,
                len: 4,
                reserved: 0,
                data: queue as u64,
            }),
    {
        BaoIoEventFd {
            fd,
            flags: BAO_IOEVENTFD_FLAG_DATAMATCH,
            addr: self.mmio.range.base + VIRTIO_MMIO_QUEUE_NOTIFY_OFFSET,
            len: 4,
            reserved: 0,
            data: queue as u64,
        }
    }

    /// Records that the queue handlers took over: the device is active.
    pub fn finalize_activate(&mut self)
        ensures
            final(self)@ == with_config(
                old(self)@,
                ConfigView { device_activated: true, ..old(self)@.config },
            ),
    {
        self.config.device_activated = true;
    }

    /// Records that activation failed: the device moves to FAILED.
    pub fn activation_failed(&mut self)
        ensures
            final(self)@ == with_config(old(self)@, with_failed(old(self)@.config)),
    {
        self.config.device_status = self.config.device_status | FAILED;
    }

    /// Raises the used-buffer interrupt bit.
    pub fn signal_used_queue(&mut self)
        ensures
            final(self)@ == with_config(old(self)@, with_vring_interrupt(old(self)@.config)),
    {
        self.config.interrupt_status = self.config.interrupt_status | VIRTIO_MMIO_INT_VRING;
    }

    /// Reads `data.len()` bytes at `offset` of the device's window.
    pub fn mmio_read(&mut self, offset: u64, data: &mut [u8])
        ensures
            final(self)@ == with_config(old(self)@, read_state(old(self)@, offset)),
            final(data)@ == read_state(old(self)@, offset).read(
                old(self)@.device_type.spec_id(),
                offset,
                old(data)@.len(),
            ),
    {
        if self.data_plane != VirtioDataPlane::Virtio && offset == VIRTIO_MMIO_INTERRUPT_STATUS {
            self.config.interrupt_status = self.config.interrupt_status | VIRTIO_MMIO_INT_VRING;
        }
        let id = self.device_type.id();
        self.config.read(id, offset, data);
    }

    /// Writes `data` at `offset` of the device's window.
    pub fn mmio_write(&mut self, offset: u64, data: &[u8]) -> (r: WriteEffect)
        ensures
            final(self)@ == with_config(old(self)@, old(self)@.config.write(offset, data@).0),
            r == old(self)@.config.write(offset, data@).1,
    {
        self.config.write(offset, data)
    }
}

/// Builds the device of `config`: it offers the common features together
/// with `device_features`, starts with the queues of its kind, and exposes
/// `config_space`.
pub fn build_device(config: &DeviceConfig, device_features: u64, config_space: Vec<u8>)
    -> (r: Result<VirtioDeviceCommon>)
    ensures
        r is Ok <==> config.mmio_addr + MMIO_WINDOW_SIZE <= u64::MAX + 1,
        r matches Ok(d) ==> {
            &&& d.wf()
            &&& d.mmio.range.base == config.mmio_addr
            &&& d.mmio.gsi == config.irq
            &&& d.device_type == VirtioDevType::spec_from_name(config.device_type@)
            &&& d.data_plane == VirtioDataPlane::spec_from_name(config.data_plane@)
            &&& d@.config == (ConfigView {
                device_features: COMMON_FEATURES | device_features,
                driver_features: 0,
                device_features_select: 0,
                driver_features_select: 0,
                device_status: 0,
                queue_select: 0,
                queues: spec_initial_queues(d.device_type),
                config_generation: 0,
                config_space: config_space@,
                device_activated: false,
                interrupt_status: 0,
            })
        },
        r matches Err(e) ==> e == Error::MmioConfig,
{
    let (common, queues) = initialize(config);
    let virtio = VirtioConfig::new(common | device_features, queues, config_space);
    VirtioDeviceCommon::new(config, virtio)
}

/// Signalling the driver that a queue has used buffers.
pub trait SignalUsedQueue {
    /// Signals the driver about used buffers of queue `index`.
    fn signal_used_queue(&mut self, index: u16);
}

impl SignalUsedQueue for VirtioDeviceCommon {
    /// Raises the used-buffer interrupt bit; the queue does not matter, as
    /// the MMIO transport shares one interrupt between all queues.
    fn signal_used_queue(&mut self, _index: u16) {
        VirtioDeviceCommon::signal_used_queue(self);
    }
}

/// The device-specific features and configuration space of `variant` for
/// `config`, or `None` when what it needs is missing: the disk size of a
/// block device, the context id of a vhost vsock device, a MAC address that
/// parses (when one is configured) for a network device.
pub open spec fn spec_device_parts(variant: VirtioDeviceType, config: DeviceConfig, disk_size: Option<u64>) -> Option<(u64, Seq<u8>)> {
    match variant {
        VirtioDeviceType::VirtioBlock => match disk_size {
            Some(size) => Some(
                (
                    spec_block_features(config.read_only, config.advertise_flush),
                    le_bytes64(size >> SECTOR_SHIFT),
                ),
            ),
            None => None,
        },
        VirtioDeviceType::VirtioNet => match config.mac_addr {
            Some(m) => match spec_mac_bytes(m@) {
                Some(b) => Some((VIRTIO_NET_FEATURES | VIRTIO_NET_F_MAC_MASK, b)),
                None => None,
            },
            None => Some((VIRTIO_NET_FEATURES, Seq::empty())),
        },
        VirtioDeviceType::VhostNet => match config.mac_addr {
            Some(m) => match spec_mac_bytes(m@) {
                Some(b) => Some((VHOST_NET_FEATURES, b)),
                None => None,
            },
            None => Some((VHOST_NET_FEATURES, Seq::empty())),
        },
        VirtioDeviceType::VirtioConsole => Some(
            (VIRTIO_CONSOLE_FEATURES, seq![80u8, 0u8, 25u8, 0u8, 1u8, 0u8, 0u8, 0u8]),
        ),
        VirtioDeviceType::VhostVsock => match config.guest_cid {
            Some(cid) => Some((VHOST_VSOCK_FEATURES, le_bytes64(cid))),
            None => None,
        },
        VirtioDeviceType::VhostUserFs | VirtioDeviceType::VhostUserVsock => Some(
            (0, Seq::empty()),
        ),
        VirtioDeviceType::Unknown => None,
    }
}

/// Whether `device_parts` has what it needs for `variant`.
pub open spec fn spec_parts_ok(variant: VirtioDeviceType, config: DeviceConfig, disk_size: Option<u64>) -> bool {
    spec_device_parts(variant, config, disk_size) is Some
}

/// The device-specific features and configuration space of `variant` for
/// `config`: block devices need the size of their backing file
/// (`disk_size`), vhost vsock devices a guest context id; vhost-user devices
/// take both from their backend, so they start with none. A missing size or
/// context id, and the `Unknown` variant, are a `WrongDeviceConfiguration`.
pub fn device_parts(variant: VirtioDeviceType, config: &DeviceConfig, disk_size: Option<u64>)
    -> (r: Result<(u64, Vec<u8>)>)
    ensures
        r is Ok <==> spec_parts_ok(variant, *config, disk_size),
        r matches Ok(p) ==> spec_device_parts(variant, *config, disk_size) == Some((p.0, p.1@)),
        (variant == VirtioDeviceType::VirtioNet || variant == VirtioDeviceType::VhostNet)
            && config.mac_addr is Some ==> (r matches Err(e) ==> e == Error::ParseFailure),
        (variant == VirtioDeviceType::VirtioBlock && disk_size is None) || (variant
            == VirtioDeviceType::VhostVsock && config.guest_cid is None) || variant
            == VirtioDeviceType::Unknown ==> (r matches Err(Error::WrongDeviceConfiguration(k, p))
            && k@ == VirtioDevType::spec_from_name(config.device_type@).spec_display() && p@
            == VirtioDataPlane::spec_from_name(config.data_plane@).spec_display()),
{
    let bad = Err(
        Error::WrongDeviceConfiguration(
            VirtioDevType::from_name(config.device_type.as_str()).to_string(),
            VirtioDataPlane::from_name(config.data_plane.as_str()).to_string(),
        ),
    );
    match variant {
        VirtioDeviceType::VirtioBlock => match disk_size {
            Some(size) => Ok((block_device_features(config), block_config_space(size))),
            None => bad,
        },
        VirtioDeviceType::VirtioNet => match net_config_space(config) {
            Ok(space) => Ok((net_device_features(config), space)),
            Err(e) => Err(e),
        },
        VirtioDeviceType::VhostNet => match net_config_space(config) {
            Ok(space) => Ok((vhost_net_device_features(), space)),
            Err(e) => Err(e),
        },
        VirtioDeviceType::VirtioConsole => Ok((console_device_features(), console_config_space())),
        VirtioDeviceType::VhostVsock => match config.guest_cid {
            Some(cid) => Ok((vhost_vsock_device_features(), vsock_config_space(cid))),
            None => bad,
        },
        VirtioDeviceType::VhostUserFs | VirtioDeviceType::VhostUserVsock => Ok((0, Vec::new())),
        VirtioDeviceType::Unknown => bad,
    }
}

} // verus!
