//! Identity and telemetry normalization for the Windows instrumentation
//! path.
//!
//! The identity comes from the first row of the video-controller
//! instrumentation class; a frontend runs that query and hands the row's
//! string fields in as plain values.  Total VRAM is captured once at
//! identity-resolution time, because the live counter facility exposes no
//! "total" metric; used VRAM and load are formatted performance-counter
//! readings taken per snapshot, which this module rounds to whole counts.
//! Temperature is not exposed by this path and always reads as the
//! sentinel `0`.

use vstd::prelude::*;

use crate::normalize;
use crate::nvidia;
use crate::resolve::GpuHandle;
use crate::{Gpu, GpuDesc, GpuInfo, ProbeError};

verus! {

/// The fields of one video-controller instrumentation row, as the
/// frontend's query returned them.
pub struct VideoController {
    pub name: String,
    pub video_processor: String,
    pub adapter_compatibility: String,
    pub device_id: String,
    pub adapter_ram: u32,
}

/// Resolve through the Windows path: prefer the cross-platform Nvidia
/// management library when it yields a device, and fall back to the
/// first video-controller row — the first-wins heuristic this library
/// documents.  The frontend runs the instrumentation query and hands the
/// rows in; with no device on either path the probe reports a miss.
///
/// The telemetry view built here carries no counter readings: counters
/// are read per snapshot, so a frontend builds a fresh view with
/// [`WindowsGpu::info`] for each one.
pub fn active_gpu(rows: &Vec<VideoController>) -> (r: Result<GpuHandle, ProbeError>)
    ensures
        r matches Ok(h) ==> (h matches GpuHandle::Nvidia(g) && g.desc().vendor == "Nvidia"@) || (
        h matches GpuHandle::Windows(g, i) && rows@.len() > 0 && g.desc().vendor
            == rows@[0].video_processor@ && g.desc().model == rows@[0].name@ && g.desc().family
            == rows@[0].adapter_compatibility@ && g.desc().device_id == 0 && i.total_vram
            == rows@[0].adapter_ram as u64 && i.used_vram_thousandths is None
            && i.load_pct_thousandths is None),
        r matches Err(e) ==> e == ProbeError::NotFound && rows@.len() == 0,
{
    match nvidia::active_gpu() {
        Ok(g) => return Ok(GpuHandle::Nvidia(g)),
        Err(_) => (),
    }
    if rows.len() == 0 {
        return Err(ProbeError::NotFound);
    }
    let row = &rows[0];
    let gpu = WindowsGpu::from_video_controller(
        row.name.clone(),
        row.video_processor.clone(),
        row.adapter_compatibility.clone(),
        row.adapter_ram,
    );
    let info = gpu.info(None, None);
    Ok(GpuHandle::Windows(gpu, info))
}

/// One formatted counter reading, rounded to the nearest whole count.
/// The counter facility itself (opening the query, collecting, and
/// formatting) is native to Windows and lives outside this library; the
/// frontend hands the formatted reading in, in thousandths of a unit, or
/// `None` when any step of the query failed.  A reading too large to
/// round without overflow is treated as a failed query.
pub fn counter_value(reading_thousandths: Option<u64>) -> (r: Result<u64, ProbeError>)
    ensures
        match reading_thousandths {
            Some(v) => if v <= u64::MAX - 500 {
                r matches Ok(c) && c == normalize::rounded_from_thousandths(v)
            } else {
                r matches Err(e) && e == ProbeError::NotFound
            },
            None => r matches Err(e) && e == ProbeError::NotFound,
        },
{
    match reading_thousandths {
        Some(v) => if v <= u64::MAX - 500 {
            Ok(normalize::round_counter_thousandths(v))
        } else {
            Err(ProbeError::NotFound)
        },
        None => Err(ProbeError::NotFound),
    }
}

/// Identity read from the first video-controller row, plus the total
/// VRAM captured with it.  The row exposes no numeric device id, so the
/// id is always `0`.
pub struct WindowsGpu {
    total_vram: u64,
    vendor: String,
    model: String,
    family: String,
    device_id: u32,
}

impl WindowsGpu {
    /// The total VRAM captured when the identity was resolved.
    pub closed spec fn spec_total_vram(&self) -> u64 {
        self.total_vram
    }

    /// Build the identity from the first video-controller row's fields.
    pub fn from_video_controller(
        name: String,
        video_processor: String,
        adapter_compatibility: String,
        adapter_ram: u32,
    ) -> (r: WindowsGpu)
        ensures
            r.desc().vendor == video_processor@,
            r.desc().model == name@,
            r.desc().family == adapter_compatibility@,
            r.desc().device_id == 0,
            r.spec_total_vram() == adapter_ram as u64,
    {
        WindowsGpu {
            total_vram: adapter_ram as u64,
            vendor: video_processor,
            model: name,
            family: adapter_compatibility,
            device_id: 0,
        }
    }

    /// The telemetry view over this identity and one pair of counter
    /// readings.
    pub fn info(
        &self,
        used_vram_thousandths: Option<u64>,
        load_pct_thousandths: Option<u64>,
    ) -> (r: WindowsGpuInfo)
        ensures
            r.total_vram == self.spec_total_vram(),
            r.used_vram_thousandths == used_vram_thousandths,
            r.load_pct_thousandths == load_pct_thousandths,
    {
        WindowsGpuInfo {
            total_vram: self.total_vram,
            used_vram_thousandths,
            load_pct_thousandths,
        }
    }
}

impl Gpu for WindowsGpu {
    closed spec fn desc(&self) -> GpuDesc {
        GpuDesc {
            vendor: self.vendor@,
            model: self.model@,
            family: self.family@,
            device_id: self.device_id,
        }
    }

    fn vendor(&self) -> (r: &str) {
        self.vendor.as_str()
    }

    fn model(&self) -> (r: &str) {
        self.model.as_str()
    }

    fn family(&self) -> (r: &str) {
        self.family.as_str()
    }

    fn device_id(&self) -> (r: &u32) {
        &self.device_id
    }
}

/// Telemetry over the captured total plus one snapshot of the two
/// formatted counter readings, each in thousandths of its unit.  A
/// reading the counter facility could not deliver is `None` and reads as
/// the sentinel `0`.
///
/// A value of this type holds exactly one snapshot and caches nothing
/// beyond the total captured at identity time: a frontend reads the
/// counters afresh — and builds a fresh view with [`WindowsGpu::info`] —
/// for every telemetry snapshot.
pub struct WindowsGpuInfo {
    /// Captured at identity-resolution time; see [`WindowsGpu`].
    pub total_vram: u64,
    /// The dedicated-usage counter reading, in thousandths of a byte.
    pub used_vram_thousandths: Option<u64>,
    /// The utilization-percentage counter reading, in thousandths of a
    /// percent.
    pub load_pct_thousandths: Option<u64>,
}

impl GpuInfo for WindowsGpuInfo {
    open spec fn total_vram_post(&self, r: u64) -> bool {
        r == self.total_vram
    }

    open spec fn used_vram_post(&self, r: u64) -> bool {
        r == normalize::rounded_or_zero(self.used_vram_thousandths)
    }

    open spec fn load_pct_post(&self, r: u32) -> bool {
        r == normalize::truncated_u32(
            normalize::rounded_or_zero(self.load_pct_thousandths) as u64,
        )
    }

    open spec fn temperature_post(&self, r: u32) -> bool {
        r == 0
    }

    fn total_vram(&self) -> (r: u64) {
        self.total_vram
    }

    fn used_vram(&self) -> (r: u64) {
        match self.used_vram_thousandths {
            Some(v) => if v <= u64::MAX - 500 {
                normalize::round_counter_thousandths(v)
            } else {
                0
            },
            None => 0,
        }
    }

    fn load_pct(&self) -> (r: u32) {
        let rounded: u64 = match self.load_pct_thousandths {
            Some(v) => if v <= u64::MAX - 500 {
                normalize::round_counter_thousandths(v)
            } else {
                0
            },
            None => 0,
        };
        normalize::truncate_u32(rounded)
    }

    fn temperature(&self) -> (r: u32) {
        0
    }
}

} // verus!
