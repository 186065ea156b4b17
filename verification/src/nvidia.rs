//! The Nvidia adapter, over the vendor management library.
//!
//! The library is loaded and initialized at probe time; failure to
//! initialize reports `SourceUnavailable`.  Identity comes from the device
//! at index 0 — the first-wins heuristic this library documents, not a
//! verified active-display selection.  The native temperature unit is
//! whole degrees Celsius, the one unit the normalizer must scale.

use vstd::prelude::*;

use nvml_wrapper::enum_wrappers::device::{Brand, TemperatureSensor};
use nvml_wrapper::{Device, Nvml};

use crate::normalize;
use crate::{Gpu, GpuDesc, GpuInfo, ProbeError};

verus! {

#[verifier::external_type_specification]
#[verifier::external_body]
pub struct ExNvml(Nvml);

#[verifier::external_type_specification]
#[verifier::external_body]
pub struct ExDevice<'a>(Device<'a>);

/// The brand classification the management library assigns to a device.
#[derive(Clone, Copy, PartialEq, Eq, Structural, Debug)]
pub enum GpuBrand {
    GeForce,
    Nvidia,
    NvidiaRTX,
    Tesla,
    Unknown,
    NVS,
    GRID,
    Quadro,
    QuadroRTX,
    GeForceRTX,
    Titan,
    TitanRTX,
    VApps,
    VPC,
    VCS,
    VWS,
    CloudGaming,
    VGaming,
}

/// The family string for a brand: the brand's literal name.
pub open spec fn brand_name(b: GpuBrand) -> Seq<char> {
    match b {
        GpuBrand::GeForce => "GeForce"@,
        GpuBrand::Nvidia => "Nvidia"@,
        GpuBrand::NvidiaRTX => "NvidiaRTX"@,
        GpuBrand::Tesla => "Tesla"@,
        GpuBrand::Unknown => "Unknown"@,
        GpuBrand::NVS => "NVS"@,
        GpuBrand::GRID => "GRID"@,
        GpuBrand::Quadro => "Quadro"@,
        GpuBrand::QuadroRTX => "QuadroRTX"@,
        GpuBrand::GeForceRTX => "GeForceRTX"@,
        GpuBrand::Titan => "Titan"@,
        GpuBrand::TitanRTX => "TitanRTX"@,
        GpuBrand::VApps => "VApps"@,
        GpuBrand::VPC => "VPC"@,
        GpuBrand::VCS => "VCS"@,
        GpuBrand::VWS => "VWS"@,
        GpuBrand::CloudGaming => "CloudGaming"@,
        GpuBrand::VGaming => "VGaming"@,
    }
}

/// Map a brand to the family string the descriptor carries.
pub fn brand_to_string(brand: GpuBrand) -> (r: String)
    ensures
        r@ == brand_name(brand),
{
    match brand {
        GpuBrand::GeForce => "GeForce".to_owned(),
        GpuBrand::Nvidia => "Nvidia".to_owned(),
        GpuBrand::NvidiaRTX => "NvidiaRTX".to_owned(),
        GpuBrand::Tesla => "Tesla".to_owned(),
        GpuBrand::Unknown => "Unknown".to_owned(),
        GpuBrand::NVS => "NVS".to_owned(),
        GpuBrand::GRID => "GRID".to_owned(),
        GpuBrand::Quadro => "Quadro".to_owned(),
        GpuBrand::QuadroRTX => "QuadroRTX".to_owned(),
        GpuBrand::GeForceRTX => "GeForceRTX".to_owned(),
        GpuBrand::Titan => "Titan".to_owned(),
        GpuBrand::TitanRTX => "TitanRTX".to_owned(),
        GpuBrand::VApps => "VApps".to_owned(),
        GpuBrand::VPC => "VPC".to_owned(),
        GpuBrand::VCS => "VCS".to_owned(),
        GpuBrand::VWS => "VWS".to_owned(),
        GpuBrand::CloudGaming => "CloudGaming".to_owned(),
        GpuBrand::VGaming => "VGaming".to_owned(),
    }
}

/// Relies on `Nvml::init`: loads and initializes the management library;
/// `None` when the library is missing or refuses to initialize.
#[verifier::external_body]
fn nvml_init() -> (r: Option<Nvml>) {
    Nvml::init().ok()
}

/// Relies on `Nvml::device_by_index`: the device at the given index, if
/// the library knows one.
#[verifier::external_body]
fn device_at<'a>(nvml: &'a Nvml, index: u32) -> (r: Option<Device<'a>>) {
    nvml.device_by_index(index).ok()
}

/// Relies on `Device::name`: the device's marketing name.
#[verifier::external_body]
fn device_name(device: &Device<'_>) -> (r: Option<String>) {
    device.name().ok()
}

/// Relies on `Device::brand`: the device's brand classification, one
/// variant mapped to one variant.
#[verifier::external_body]
fn device_brand(device: &Device<'_>) -> (r: Option<GpuBrand>) {
    match device.brand() {
        Ok(b) => Some(match b {
            Brand::GeForce => GpuBrand::GeForce, Brand::Nvidia => GpuBrand::Nvidia,
            Brand::NvidiaRTX => GpuBrand::NvidiaRTX, Brand::Tesla => GpuBrand::Tesla,
            Brand::Unknown => GpuBrand::Unknown, Brand::NVS => GpuBrand::NVS,
            Brand::GRID => GpuBrand::GRID, Brand::Quadro => GpuBrand::Quadro,
            Brand::QuadroRTX => GpuBrand::QuadroRTX, Brand::GeForceRTX => GpuBrand::GeForceRTX,
            Brand::Titan => GpuBrand::Titan, Brand::TitanRTX => GpuBrand::TitanRTX,
            Brand::VApps => GpuBrand::VApps, Brand::VPC => GpuBrand::VPC,
            Brand::VCS => GpuBrand::VCS, Brand::VWS => GpuBrand::VWS,
            Brand::CloudGaming => GpuBrand::CloudGaming, Brand::VGaming => GpuBrand::VGaming,
        }),
        Err(_) => None,
    }
}

/// Relies on `Device::pci_info`: the PCI ids of the device; hands out the
/// combined device/vendor id field.
#[verifier::external_body]
fn device_pci_device_id(device: &Device<'_>) -> (r: Option<u32>) {
    match device.pci_info() {
        Ok(p) => Some(p.pci_device_id),
        Err(_) => None,
    }
}

/// Relies on `Device::memory_info`: total and used framebuffer memory, in
/// bytes.
#[verifier::external_body]
fn device_memory_info(device: &Device<'_>) -> (r: Option<(u64, u64)>) {
    match device.memory_info() {
        Ok(m) => Some((m.total, m.used)),
        Err(_) => None,
    }
}

/// Relies on `Device::utilization_rates`: the GPU utilization percentage
/// over the last sample period.
#[verifier::external_body]
fn device_utilization_gpu(device: &Device<'_>) -> (r: Option<u32>) {
    match device.utilization_rates() {
        Ok(u) => Some(u.gpu),
        Err(_) => None,
    }
}

/// Relies on `Device::temperature` with the GPU die sensor: the reading
/// in whole degrees Celsius.
#[verifier::external_body]
fn device_temperature_celsius(device: &Device<'_>) -> (r: Option<u32>) {
    device.temperature(TemperatureSensor::Gpu).ok()
}

/// An Nvidia device identity, holding the management-library session it
/// was resolved through for later telemetry queries.
pub struct NvidiaGpu {
    nvml: Nvml,
    vendor: String,
    model: String,
    family: String,
    device_id: u32,
}

impl Gpu for NvidiaGpu {
    closed spec fn desc(&self) -> GpuDesc {
        GpuDesc {
            vendor: self.vendor@,
            model: self.model@,
            family: self.family@,
            device_id: self.device_id,
        }
    }

    fn vendor(&self) -> (r: &str) {
        self.vendor.as_str()
    }

    fn model(&self) -> (r: &str) {
        self.model.as_str()
    }

    fn family(&self) -> (r: &str) {
        self.family.as_str()
    }

    fn device_id(&self) -> (r: &u32) {
        &self.device_id
    }
}

impl GpuInfo for NvidiaGpu {
    open spec fn total_vram_post(&self, r: u64) -> bool {
        true
    }

    open spec fn used_vram_post(&self, r: u64) -> bool {
        true
    }

    /// Every reading this accessor hands out lies in the canonical
    /// 0-100 percent range: a reported value above it clamps to the
    /// bound.
    open spec fn load_pct_post(&self, r: u32) -> bool {
        r <= 100
    }

    /// The native unit is whole degrees Celsius, so every reading this
    /// accessor hands out has been scaled to whole millidegrees.
    open spec fn temperature_post(&self, r: u32) -> bool {
        r % 1000 == 0
    }

    fn total_vram(&self) -> (r: u64) {
        let reading = match device_at(&self.nvml, 0) {
            Some(d) => device_memory_info(&d),
            None => None,
        };
        normalize::sentinel_total_or_zero(reading)
    }

    fn used_vram(&self) -> (r: u64) {
        let reading = match device_at(&self.nvml, 0) {
            Some(d) => device_memory_info(&d),
            None => None,
        };
        normalize::sentinel_used_or_zero(reading)
    }

    fn load_pct(&self) -> (r: u32) {
        let reading = match device_at(&self.nvml, 0) {
            Some(d) => device_utilization_gpu(&d),
            None => None,
        };
        normalize::clamp_pct(normalize::sentinel_or_u32(reading))
    }

    fn temperature(&self) -> (r: u32) {
        let device = match device_at(&self.nvml, 0) {
            Some(d) => d,
            None => return 0,
        };
        match device_temperature_celsius(&device) {
            Some(celsius) => if celsius <= normalize::MAX_WHOLE_CELSIUS {
                normalize::celsius_to_millidegrees(celsius)
            } else {
                // An impossible reading; treat it as a failed read.
                0
            },
            None => 0,
        }
    }
}

/// Probe the management-library path: initialize the library, take the
/// device at index 0, and copy its identity out.  Initialization failure
/// is `SourceUnavailable`; any failure after that is `NotFound`.
pub fn active_gpu() -> (r: Result<NvidiaGpu, ProbeError>)
    ensures
        r matches Ok(g) ==> g.desc().vendor == "Nvidia"@ && (exists|b: GpuBrand|
            g.desc().family == brand_name(b)),
{
    let nvml = match nvml_init() {
        Some(n) => n,
        None => return Err(ProbeError::SourceUnavailable),
    };
    let model: String;
    let family: String;
    let device_id: u32;
    {
        let device = match device_at(&nvml, 0) {
            Some(d) => d,
            None => return Err(ProbeError::NotFound),
        };
        model = match device_name(&device) {
            Some(m) => m,
            None => return Err(ProbeError::NotFound),
        };
        let brand = match device_brand(&device) {
            Some(b) => b,
            None => return Err(ProbeError::NotFound),
        };
        family = brand_to_string(brand);
        device_id = match device_pci_device_id(&device) {
            Some(i) => i,
            None => return Err(ProbeError::NotFound),
        };
        proof {
            assert(family@ == brand_name(brand));
        }
    }
    Ok(NvidiaGpu { nvml, vendor: "Nvidia".to_owned(), model, family, device_id })
}

} // verus!
