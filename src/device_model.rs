//! The per-VM handle on the hypervisor and the records its control
//! operations carry.

use crate::defines::{BAO_IOEVENTFD_FLAG_DATAMATCH, BAO_IOEVENTFD_FLAG_DEASSIGN, BAO_IO_ASK, BAO_IRQFD_FLAG_ASSIGN};
use crate::types::{BaoIoEventFd, BaoIoRequest, BaoIrqFd};
use vstd::prelude::*;

verus! {

/// The hypervisor's handle on one VM: the control descriptor, the device
/// model descriptor, the VM id, the shared memory window and the interrupt.
#[derive(Clone, Copy, Debug, PartialEq, Eq, Structural)]
pub struct BaoDeviceModel {
    pub fd: i32,
    pub devmodel_fd: i32,
    pub id: u16,
    pub shmem_addr: u64,
    pub shmem_size: u64,
    pub irq: u32,
}

/// The ioeventfd registrations the hypervisor holds: for each written
/// address and matched value, the descriptor it raises.
pub type IoEventTable = Map<(u64, u64), u32>;

/// The hypervisor's registrations after it handles the ioeventfd record
/// `rec`: a record with the deassign flag removes the registration at its
/// address and value; any other adds it.
pub open spec fn ioeventfd_applied(regs: IoEventTable, rec: BaoIoEventFd) -> IoEventTable {
    if rec.flags & BAO_IOEVENTFD_FLAG_DEASSIGN != 0 {
        regs.remove((rec.addr, rec.data))
    } else {
        regs.insert((rec.addr, rec.data), rec.fd)
    }
}

impl BaoDeviceModel {
    /// The request record with which the dispatch loop attaches as the I/O
    /// client: an ASK with every other field zero.
    pub fn ask_request() -> (r: BaoIoRequest)
        ensures
            r == (BaoIoRequest {
                virtio_id: 0,
                reg_off: 0,
                addr: 0,
                op: BAO_IO_ASK,
                value: 0,
                access_width: 0,
                cpu_id: 0,
                vcpu_id: 0,
                ret: 0,
            }),
    {
        BaoIoRequest {
            virtio_id: 0,
            reg_off: 0,
            addr: 0,
            op: BAO_IO_ASK,
            value: 0,
            access_width: 0,
            cpu_id: 0,
            vcpu_id: 0,
            ret: 0,
        }
    }

    /// The record that asks the hypervisor to raise `kick` on 4-byte guest
    /// writes at `addr` (of value `datamatch`, with the data-match flag).
    pub fn ioeventfd_record(kick: u32, flags: u32, addr: u64, datamatch: u64) -> (r: BaoIoEventFd)
        ensures
            r == (BaoIoEventFd { fd: kick, flags, addr, len: 4, reserved: 0, data: datamatch }),
    {
        BaoIoEventFd { fd: kick, flags, addr, len: 4, reserved: 0, data: datamatch }
    }

    /// The record that binds `call` as the VM's Virtio interrupt source.
    pub fn irqfd_record(call: i32) -> (r: BaoIrqFd)
        ensures
            r == (BaoIrqFd { fd: call, flags: BAO_IRQFD_FLAG_ASSIGN }),
    {
        BaoIrqFd { fd: call, flags: BAO_IRQFD_FLAG_ASSIGN }
    }
}

/// Registering an ioeventfd at an address and value that hold none, then
/// deassigning it there, leaves the hypervisor's registrations as they were.
pub proof fn lemma_ioeventfd_deassign_undoes(regs: IoEventTable, fd: u32, addr: u64, datamatch: u64)
    requires
        !regs.contains_key((addr, datamatch)),
    ensures
        ioeventfd_applied(
            ioeventfd_applied(
                regs,
                BaoIoEventFd {
                    fd,
                    flags: BAO_IOEVENTFD_FLAG_DATAMATCH,
                    addr,
                    len: 4,
                    reserved: 0,
                    data: datamatch,
                },
            ),
            BaoIoEventFd {
                fd,
                flags: BAO_IOEVENTFD_FLAG_DATAMATCH | BAO_IOEVENTFD_FLAG_DEASSIGN,
                addr,
                len: 4,
                reserved: 0,
                data: datamatch,
            },
        ) == regs,
{
    assert(BAO_IOEVENTFD_FLAG_DATAMATCH & BAO_IOEVENTFD_FLAG_DEASSIGN == 0) by (bit_vector);
    assert((BAO_IOEVENTFD_FLAG_DATAMATCH | BAO_IOEVENTFD_FLAG_DEASSIGN) & BAO_IOEVENTFD_FLAG_DEASSIGN
        != 0) by (bit_vector);
    assert(regs.insert((addr, datamatch), fd).remove((addr, datamatch)) =~= regs);
}

} // verus!
