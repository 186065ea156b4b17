//! Identity and telemetry normalization for the macOS IORegistry path.
//!
//! The registry itself (service matching, iterator walking, property
//! dictionaries) is an operating-system facility this library only
//! models: a frontend reads the raw `"vendor-id"` bytes, the `"model"`
//! string and the nested `"PerformanceStatistics"` entries, and hands
//! them in as plain values.  Everything from there on — the byte-reversed
//! hex rendering of the vendor id, the fixed `"N/A"` family, the sentinel
//! rules for the metrics this path cannot deliver — is verified here.

use vstd::prelude::*;

use crate::normalize;
use crate::{Gpu, GpuDesc, GpuInfo, ProbeError};

verus! {

/// How a registry property value is to be interpreted.
pub enum DataType {
    Number,
    _String,
}

/// The properties of one accelerator registry entry, as the frontend
/// read them: `None` for a property the entry lacks.
pub struct RegistryEntry {
    pub vendor_id: Option<Vec<u8>>,
    pub model: Option<String>,
}

/// The numeric reading behind a registry statistic: negative values
/// clamp to `0`.
pub open spec fn stat_number(x: i64) -> u64 {
    if x < 0 {
        0
    } else {
        x as u64
    }
}

/// Interpret one performance statistic the frontend read from the
/// nested statistics dictionary: `None` for a statistic the dictionary
/// lacked.  A statistic that is present but cannot be converted to a
/// number is handed in as `Some(0)`, so it reads as `0` rather than as
/// missing.  Only numeric statistics are supported.
pub fn performance_stat(value: Option<i64>, data_type: DataType) -> (r: Result<u64, ProbeError>)
    ensures
        value is None ==> (r matches Err(e) && e == ProbeError::NotFound),
        value matches Some(x) ==> match data_type {
            DataType::Number => r matches Ok(v) && v == stat_number(x),
            DataType::_String => r matches Err(e) && e == ProbeError::NotFound,
        },
{
    match value {
        None => Err(ProbeError::NotFound),
        Some(x) => match data_type {
            DataType::Number => Ok(
                if x < 0 {
                    0
                } else {
                    x as u64
                },
            ),
            DataType::_String => Err(ProbeError::NotFound),
        },
    }
}

/// Resolve through the registry path: take the first matching entry —
/// the first-wins heuristic this library documents — and require both
/// identity properties of it.  No entries, or an entry missing either
/// property, is a failed probe.
pub fn active_gpu(entries: &Vec<RegistryEntry>) -> (r: Result<MacGpu, ProbeError>)
    ensures
        entries@.len() == 0 ==> (r matches Err(e) && e == ProbeError::NotFound),
        entries@.len() > 0 ==> match (entries@[0].vendor_id, entries@[0].model) {
            (Some(v), Some(m)) => r matches Ok(g) && g.desc().vendor == normalize::reversed_hex(
                v@,
            ) && g.desc().model == m@ && g.desc().family == "N/A"@ && g.desc().device_id == 0,
            _ => r matches Err(e) && e == ProbeError::NotFound,
        },
{
    if entries.len() == 0 {
        return Err(ProbeError::NotFound);
    }
    let first = &entries[0];
    match (&first.vendor_id, &first.model) {
        (Some(vendor_id), Some(model)) => Ok(
            MacGpu::from_registry_properties(vendor_id, model.clone()),
        ),
        _ => Err(ProbeError::NotFound),
    }
}

/// Identity read from the first matching accelerator registry entry.  The
/// vendor is the raw byte-reversed hex rendering of the `"vendor-id"`
/// property — not a resolved vendor name; the family is not exposed by
/// this path and is always `"N/A"`; the device id is likewise unavailable
/// and always `0`.
pub struct MacGpu {
    vendor: String,
    model: String,
    family: String,
    device_id: u32,
}

impl MacGpu {
    /// Build the identity from the raw registry properties: the
    /// little-endian `"vendor-id"` bytes and the `"model"` string.
    pub fn from_registry_properties(vendor_id: &Vec<u8>, model: String) -> (r: MacGpu)
        ensures
            r.desc().vendor == normalize::reversed_hex(vendor_id@),
            r.desc().model == model@,
            r.desc().family == "N/A"@,
            r.desc().device_id == 0,
    {
        MacGpu {
            vendor: normalize::reversed_hex_string(vendor_id),
            model,
            family: "N/A".to_owned(),
            device_id: 0,
        }
    }
}

impl Gpu for MacGpu {
    closed spec fn desc(&self) -> GpuDesc {
        GpuDesc {
            vendor: self.vendor@,
            model: self.model@,
            family: self.family@,
            device_id: self.device_id,
        }
    }

    fn vendor(&self) -> (r: &str) {
        self.vendor.as_str()
    }

    fn model(&self) -> (r: &str) {
        self.model.as_str()
    }

    fn family(&self) -> (r: &str) {
        self.family.as_str()
    }

    fn device_id(&self) -> (r: &u32) {
        &self.device_id
    }
}

/// Telemetry over one reading of the accelerator's nested
/// `"PerformanceStatistics"` dictionary.  Total VRAM and temperature are
/// not exposed by this path and always read as the sentinel `0`; the two
/// statistics that are exposed read as the sentinel when the dictionary
/// lacked them.
///
/// A value of this type holds exactly one reading and caches nothing: a
/// frontend reads the dictionary afresh — and builds a fresh view — for
/// every telemetry snapshot.
pub struct MacGpuInfo {
    /// The `"In use system memory"` statistic, if the dictionary had it.
    pub used_vram_stat: Option<u64>,
    /// The `"Device Utilization %"` statistic, if the dictionary had it.
    pub load_pct_stat: Option<u64>,
}

impl MacGpuInfo {
    /// Wrap one reading of the performance-statistics properties.
    pub fn from_performance_stats(used_vram_stat: Option<u64>, load_pct_stat: Option<u64>) -> (r:
        MacGpuInfo)
        ensures
            r.used_vram_stat == used_vram_stat,
            r.load_pct_stat == load_pct_stat,
    {
        MacGpuInfo { used_vram_stat, load_pct_stat }
    }
}

impl GpuInfo for MacGpuInfo {
    open spec fn total_vram_post(&self, r: u64) -> bool {
        r == 0
    }

    open spec fn used_vram_post(&self, r: u64) -> bool {
        r == normalize::or_zero_u64(self.used_vram_stat)
    }

    open spec fn load_pct_post(&self, r: u32) -> bool {
        r == normalize::truncated_u32(normalize::or_zero_u64(self.load_pct_stat))
    }

    open spec fn temperature_post(&self, r: u32) -> bool {
        r == 0
    }

    fn total_vram(&self) -> (r: u64) {
        0
    }

    fn used_vram(&self) -> (r: u64) {
        normalize::sentinel_or_u64(self.used_vram_stat)
    }

    fn load_pct(&self) -> (r: u32) {
        normalize::truncate_u32(normalize::sentinel_or_u64(self.load_pct_stat))
    }

    fn temperature(&self) -> (r: u32) {
        0
    }
}

} // verus!
