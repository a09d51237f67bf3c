//! Request codes of the hypervisor ioctls.
//!
//! A code packs the transfer direction, the type byte, a sequence number and
//! the payload size as `(dir << 30) | (size << 16) | (type << 8) | nr`.

use crate::defines::BAO_IOCTL_TYPE;
use vstd::prelude::*;

verus! {

/// Direction bits: the caller writes the payload.
pub const IOC_WRITE: u32 = 1;

/// Direction bits: the caller reads the payload back.
pub const IOC_READ: u32 = 2;

/// Payload size of the device model information record.
pub const DM_INFO_SIZE: u32 = 0x40;

/// Payload size of an I/O request record.
pub const IO_REQUEST_SIZE: u32 = 0x40;

/// Payload size of an ioeventfd registration record.
pub const IOEVENTFD_SIZE: u32 = 0x20;

/// Payload size of an irqfd registration record.
pub const IRQFD_SIZE: u32 = 0x08;

/// The request code of an ioctl, as the kernel's ioctl convention packs it
/// into 32 bits.
pub open spec fn ioc(dir: u32, ty: u32, nr: u32, size: u32) -> u32 {
    (dir << 30u32) | (ty << 8u32) | (nr << 0u32) | (size << 16u32)
}

/// The request code read arithmetically, for fields that fit their bit width.
pub open spec fn ioc_value(dir: u32, ty: u32, nr: u32, size: u32) -> int {
    dir * 0x4000_0000 + size * 0x1_0000 + ty * 0x100 + nr
}

/// Relies on vmm_sys_util::ioctl::ioctl_expr: it shifts each field to its
/// place in a 32-bit word, joins them with `|`, and widens the result.
pub assume_specification[ vmm_sys_util::ioctl::ioctl_expr ](
    dir: u32,
    ty: u32,
    nr: u32,
    size: u32,
) -> (r: u64)
    ensures
        r == ioc(dir, ty, nr, size) as u64,
;

/// When every field fits its bit width the packed code is the sum of the
/// shifted fields: no field spills into another.
pub proof fn lemma_ioc_fields(dir: u32, ty: u32, nr: u32, size: u32)
    requires
        dir < 4,
        ty < 0x100,
        nr < 0x100,
        size < 0x4000,
    ensures
        ioc(dir, ty, nr, size) as int == ioc_value(dir, ty, nr, size),
{
    assert((dir << 30u32) | (ty << 8u32) | (nr << 0u32) | (size << 16u32)
        == dir * 0x4000_0000u32 + size * 0x1_0000u32 + ty * 0x100u32 + nr) by (bit_vector)
        requires
            dir < 4,
            ty < 0x100,
            nr < 0x100,
            size < 0x4000,
    ;
}

/// Computes an ioctl request code.
pub fn ioctl_code(dir: u32, ty: u32, nr: u32, size: u32) -> (r: u64)
    ensures
        r == ioc(dir, ty, nr, size) as u64,
{
    vmm_sys_util::ioctl::ioctl_expr(dir, ty, nr, size)
}

/// Code of the ioctl that fetches the device model information.
#[allow(non_snake_case)]
pub fn BAO_IOCTL_IO_DM_GET_INFO() -> (r: u64)
    ensures
        r as int == ioc_value(IOC_WRITE | IOC_READ, BAO_IOCTL_TYPE, 1, DM_INFO_SIZE),
        r == 0xC040_A601,
{
    proof {
        assert(IOC_WRITE | IOC_READ == 3u32) by (bit_vector);
        lemma_ioc_fields(3, BAO_IOCTL_TYPE, 1, DM_INFO_SIZE);
    }
    ioctl_code(IOC_WRITE | IOC_READ, BAO_IOCTL_TYPE, 1, DM_INFO_SIZE)
}

/// Code of the ioctl that attaches the I/O client and fetches a request.
#[allow(non_snake_case)]
pub fn BAO_IOCTL_IO_ATTACH_CLIENT() -> (r: u64)
    ensures
        r as int == ioc_value(IOC_WRITE | IOC_READ, BAO_IOCTL_TYPE, 2, IO_REQUEST_SIZE),
        r == 0xC040_A602,
{
    proof {
        assert(IOC_WRITE | IOC_READ == 3u32) by (bit_vector);
        lemma_ioc_fields(3, BAO_IOCTL_TYPE, 2, IO_REQUEST_SIZE);
    }
    ioctl_code(IOC_WRITE | IOC_READ, BAO_IOCTL_TYPE, 2, IO_REQUEST_SIZE)
}

/// Code of the ioctl that posts the completion of a request.
#[allow(non_snake_case)]
pub fn BAO_IOCTL_IO_REQUEST_NOTIFY_COMPLETED() -> (r: u64)
    ensures
        r as int == ioc_value(IOC_WRITE, BAO_IOCTL_TYPE, 3, IO_REQUEST_SIZE),
        r == 0x4040_A603,
{
    proof {
        lemma_ioc_fields(IOC_WRITE, BAO_IOCTL_TYPE, 3, IO_REQUEST_SIZE);
    }
    ioctl_code(IOC_WRITE, BAO_IOCTL_TYPE, 3, IO_REQUEST_SIZE)
}

/// Code of the ioctl that registers or removes an ioeventfd.
#[allow(non_snake_case)]
pub fn BAO_IOCTL_IOEVENTFD() -> (r: u64)
    ensures
        r as int == ioc_value(IOC_WRITE, BAO_IOCTL_TYPE, 4, IOEVENTFD_SIZE),
        r == 0x4020_A604,
{
    proof {
        lemma_ioc_fields(IOC_WRITE, BAO_IOCTL_TYPE, 4, IOEVENTFD_SIZE);
    }
    ioctl_code(IOC_WRITE, BAO_IOCTL_TYPE, 4, IOEVENTFD_SIZE)
}

/// Code of the ioctl that binds or unbinds an irqfd.
#[allow(non_snake_case)]
pub fn BAO_IOCTL_IRQFD() -> (r: u64)
    ensures
        r as int == ioc_value(IOC_WRITE, BAO_IOCTL_TYPE, 5, IRQFD_SIZE),
        r == 0x4008_A605,
{
    proof {
        lemma_ioc_fields(IOC_WRITE, BAO_IOCTL_TYPE, 5, IRQFD_SIZE);
    }
    ioctl_code(IOC_WRITE, BAO_IOCTL_TYPE, 5, IRQFD_SIZE)
}

} // verus!
