//! Records exchanged with the hypervisor and the decoded configuration.

use crate::error::{Error, Result};
use vstd::prelude::*;

verus! {

/// An I/O request crossing the guest to host boundary.
///
/// `virtio_id`, `reg_off`, `addr`, `access_width`, `cpu_id` and `vcpu_id`
/// identify the access; `op` is one of the `BAO_IO_*` operations; `value`
/// carries the written data or receives the read data; `ret` is the return
/// code written on completion.
#[derive(Clone, Copy, Debug, PartialEq, Eq, Structural)]
pub struct BaoIoRequest {
    pub virtio_id: u64,
    pub reg_off: u64,
    pub addr: u64,
    pub op: u64,
    pub value: u64,
    pub access_width: u64,
    pub cpu_id: u64,
    pub vcpu_id: u64,
    pub ret: i32,
}

/// A request to raise `fd` when the guest writes `data` (with the
/// data-match flag) at `addr`, or to remove such a registration.
#[derive(Clone, Copy, Debug, PartialEq, Eq, Structural)]
pub struct BaoIoEventFd {
    pub fd: u32,
    pub flags: u32,
    pub addr: u64,
    pub len: u32,
    pub reserved: u32,
    pub data: u64,
}

/// A request to bind `fd` as the source of the VM's Virtio interrupt, or to
/// unbind it.
#[derive(Clone, Copy, Debug, PartialEq, Eq, Structural)]
pub struct BaoIrqFd {
    pub fd: i32,
    pub flags: u32,
}

/// Configuration of one emulated device.
///
/// `device_type` names the kind (net, block, console, vsock, fs, ...) and
/// `data_plane` the dataplane (virtio, vhost, vhost_user). The optional
/// fields are kind specific.
#[derive(Clone, Debug)]
pub struct DeviceConfig {
    pub id: u32,
    pub device_type: String,
    pub shmem_addr: u64,
    pub shmem_size: u64,
    pub shmem_path: String,
    pub mmio_addr: u64,
    pub irq: u32,
    pub data_plane: String,
    pub file_path: Option<String>,
    pub read_only: Option<bool>,
    pub root_device: Option<bool>,
    pub advertise_flush: Option<bool>,
    pub tap_name: Option<String>,
    pub mac_addr: Option<String>,
    pub guest_cid: Option<u64>,
    pub socket_path: Option<String>,
}

/// Configuration of the whole backend: one entry per device.
#[derive(Clone, Debug)]
pub struct VMMConfig {
    pub devices: Vec<DeviceConfig>,
}

/// An address either in port I/O space or in memory-mapped I/O space.
#[derive(Clone, Copy, Debug, PartialEq, Eq, Structural)]
pub enum IoEventAddress {
    Pio(u64),
    Mmio(u64),
}

/// The VM ids of the devices fit in 16 bits and no two are equal: one VM per
/// device, one device model per VM.
pub open spec fn ids_valid(devices: Seq<DeviceConfig>) -> bool {
    &&& forall|i: int| 0 <= i < devices.len() ==> #[trigger] devices[i].id <= u16::MAX
    &&& forall|i: int, j: int|
        #![trigger devices[i], devices[j]]
        0 <= i < j < devices.len() ==> devices[i].id != devices[j].id
}

impl VMMConfig {
    /// Checks that each device names a VM id of 16 bits and that no VM id is
    /// named twice; the first offending id is reported as an
    /// `InvalidFrontendId`.
    pub fn validate(&self) -> (r: Result<()>)
        ensures
            r is Ok <==> ids_valid(self.devices@),
            r matches Err(e) ==> e is InvalidFrontendId,
    {
        let n = self.devices.len();
        let mut i: usize = 0;
        while i < n
            invariant
                i <= n,
                n == self.devices@.len(),
                forall|k: int| 0 <= k < i ==> #[trigger] self.devices@[k].id <= u16::MAX,
                forall|a: int, b: int|
                    #![trigger self.devices@[a], self.devices@[b]]
                    0 <= a < b < i ==> self.devices@[a].id != self.devices@[b].id,
            decreases n - i,
        {
            let id = self.devices[i].id;
            if id > u16::MAX as u32 {
                return Err(Error::InvalidFrontendId(id as u16));
            }
            let mut j: usize = 0;
            while j < i
                invariant
                    j <= i < n,
                    n == self.devices@.len(),
                    id == self.devices@[i as int].id,
                    forall|b: int| 0 <= b < j ==> #[trigger] self.devices@[b].id != id,
                decreases i - j,
            {
                if self.devices[j].id == id {
                    return Err(Error::InvalidFrontendId(id as u16));
                }
                j = j + 1;
            }
            i = i + 1;
        }
        Ok(())
    }
}

} // verus!
