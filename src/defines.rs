//! Constants of the hypervisor control ABI.

use vstd::prelude::*;

verus! {

/// I/O request operation: the guest writes a register.
pub const BAO_IO_WRITE: u64 = 0x0;

/// I/O request operation: the guest reads a register.
pub const BAO_IO_READ: u64 = 0x1;

/// I/O request operation: no pending request, the caller asks to be blocked.
pub const BAO_IO_ASK: u64 = 0x2;

/// I/O request operation: a host to guest interrupt synthesised by the hypervisor.
pub const BAO_IO_NOTIFY: u64 = 0x3;

/// Maximum length of a name handed to the hypervisor.
pub const BAO_NAME_LEN: usize = 16;

/// Maximum number of pending I/O requests.
pub const BAO_IO_REQUEST_MAX: usize = 16;

/// Type byte of every hypervisor ioctl.
pub const BAO_IOCTL_TYPE: u32 = 0xA6;

/// Ioeventfd flag: raise the descriptor only when the written value matches.
pub const BAO_IOEVENTFD_FLAG_DATAMATCH: u32 = 0x2;

/// Ioeventfd flag: remove the registration instead of adding it.
pub const BAO_IOEVENTFD_FLAG_DEASSIGN: u32 = 0x4;

/// Irqfd flag: bind the descriptor.
pub const BAO_IRQFD_FLAG_ASSIGN: u32 = 0x00;

/// Irqfd flag: unbind the descriptor.
pub const BAO_IRQFD_FLAG_DEASSIGN: u32 = 0x01;

} // verus!
