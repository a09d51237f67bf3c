//! Error kinds of the device backend.

use vstd::prelude::*;

verus! {

/// The kind of MMIO access that failed on the bus.
#[derive(Clone, Copy, Debug, PartialEq, Eq, Structural)]
pub enum AccessKind {
    Read,
    Write,
}

/// Errors of configuration, of the hypervisor ABI, of the MMIO transport, of
/// device activation and of the I/O paths. Operating-system failures carry
/// the `errno` value.
#[derive(Clone, Debug, PartialEq, Eq)]
pub enum Error {
    InvalidFrontendId(u16),
    InvalidMmioAddr(String, u64),
    MmioLegacyNotSupported,
    IommuPlatformNotSupported,
    InvalidFeatureSel(u32),
    InvalidMmioDir(u8),
    BaoDevNotSupported(String),
    BaoIoctlError(i32, String),
    VhostFrontendError,
    VhostFrontendActivateError,
    InvalidString,
    ParseFailure,
    EpollCreateFd(i32),
    RegisterExitEvent(i32),
    EpollWait(i32),
    BaoBusInvalidState,
    EventFdWriteFailed(i32),
    OpenFdFailed(String, i32),
    InvalidIoReqDirection(u64),
    HandleIoEventFailed,
    DeviceNotFound,
    MmapGuestMemoryFailed,
    EventManager(String),
    RegisterIoevent(i32),
    RegisterIrqfd(i32),
    MmioConfig,
    InvalidMmioOperation(AccessKind),
    WrongDeviceConfiguration(String, String),
    DeviceBadFeatures(u64),
    DeviceAlreadyActivated,
    VhostUserMemoryRegion,
    NetTapCreateFailed(i32),
    NetTapOpenFailed,
    NetInvalidIfname(String),
    NetOpenTun(i32),
    IoctlError(i32),
}

/// Result of the backend's operations.
pub type Result<T> = std::result::Result<T, Error>;

} // verus!
