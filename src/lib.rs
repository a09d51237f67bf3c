//! Core of a Virtio MMIO device backend serving guests of a partitioning
//! hypervisor: the hypervisor control ABI, the MMIO bus, the Virtio MMIO
//! register map with its activation state machine, and request dispatch.

pub mod defines;
pub mod ioctl;
pub mod error;
pub mod types;
pub mod mmio;
pub mod queue;
pub mod config;
pub mod strings;
pub mod device;
pub mod bus;
pub mod vm;
pub mod device_model;
pub mod net;
pub mod vhost;
pub mod cli;
pub mod event;
