//! State shared by the devices whose queues the kernel's vhost processes.

use crate::error::Result;
use vstd::prelude::*;

verus! {

/// The features a kernel vhost device offers.
pub struct VhostKernelCommon {
    pub features: u64,
}

impl VhostKernelCommon {
    /// The common state of a vhost device offering `features`.
    pub fn new(features: u64) -> (r: Result<VhostKernelCommon>)
        ensures
            r matches Ok(c) && c.features == features,
    {
        Ok(VhostKernelCommon { features })
    }

    /// The features the device offers.
    pub fn features(&self) -> (r: u64)
        ensures
            r == self.features,
    {
        self.features
    }
}

} // verus!
