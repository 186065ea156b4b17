//! The Intel adapter: a configured slot in the fallback chain whose probe
//! capability is not implemented.  Probing it always reports
//! `SourceUnavailable`, which the resolver absorbs like any other adapter
//! failure; this is a legitimately unimplemented capability, not an error
//! path.

use vstd::prelude::*;

use crate::{Gpu, GpuDesc, GpuInfo, ProbeError};

verus! {

/// An Intel device identity.  No probe path constructs one today; the
/// type exists so the adapter slot has the same shape as the others.
pub struct IntelGpu {
    vendor: String,
    model: String,
    family: String,
    device_id: u32,
}

impl Gpu for IntelGpu {
    closed spec fn desc(&self) -> GpuDesc {
        GpuDesc {
            vendor: self.vendor@,
            model: self.model@,
            family: self.family@,
            device_id: self.device_id,
        }
    }

    fn vendor(&self) -> (r: &str) {
        self.vendor.as_str()
    }

    fn model(&self) -> (r: &str) {
        self.model.as_str()
    }

    fn family(&self) -> (r: &str) {
        self.family.as_str()
    }

    fn device_id(&self) -> (r: &u32) {
        &self.device_id
    }
}

impl GpuInfo for IntelGpu {
    open spec fn total_vram_post(&self, r: u64) -> bool {
        r == 0
    }

    open spec fn used_vram_post(&self, r: u64) -> bool {
        r == 0
    }

    open spec fn load_pct_post(&self, r: u32) -> bool {
        r == 0
    }

    open spec fn temperature_post(&self, r: u32) -> bool {
        r == 0
    }

    fn total_vram(&self) -> (r: u64) {
        0
    }

    fn used_vram(&self) -> (r: u64) {
        0
    }

    fn load_pct(&self) -> (r: u32) {
        0
    }

    fn temperature(&self) -> (r: u32) {
        0
    }
}

/// Probe for an Intel GPU.  The capability is unimplemented, so the probe
/// uniformly reports that its source is unavailable.
pub fn active_gpu() -> (r: Result<IntelGpu, ProbeError>)
    ensures
        r matches Err(e) && e == ProbeError::SourceUnavailable,
{
    Err(ProbeError::SourceUnavailable)
}

} // verus!
