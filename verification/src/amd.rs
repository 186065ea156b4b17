//! The AMD adapter, over the kernel driver's device interface.
//!
//! Enumeration walks the PCI devices the AMD kernel driver claims and
//! selects the first one — the first-wins heuristic this library
//! documents.  Opening the selected device's render node needs a file
//! descriptor, which the frontend opens and hands in; everything around
//! that open — loading the driver library, initializing the device
//! handle, reading the identity record — happens here.  The driver
//! already reports VRAM in bytes and temperature in millidegrees, so no
//! unit scaling is needed on this path.

use vstd::prelude::*;

use libdrm_amdgpu_sys::AMDGPU::{self, DeviceHandle, GPU_INFO, drm_amdgpu_info_device};
use libdrm_amdgpu_sys::{LibDrmAmdgpu, PCI};

use crate::normalize;
use crate::{Gpu, GpuDesc, GpuInfo, ProbeError};

verus! {

#[verifier::external_type_specification]
#[verifier::external_body]
pub struct ExLibDrmAmdgpu(LibDrmAmdgpu);

#[verifier::external_type_specification]
#[verifier::external_body]
pub struct ExDeviceHandle(DeviceHandle);

#[verifier::external_type_specification]
#[verifier::external_body]
pub struct ExInfoDevice(drm_amdgpu_info_device);

#[verifier::external_type_specification]
#[verifier::external_body]
pub struct ExBusInfo(PCI::BUS_INFO);

/// Relies on `LibDrmAmdgpu::new`: loads the driver libraries; `None`
/// when either library is missing.
#[verifier::external_body]
fn drm_load() -> (r: Option<LibDrmAmdgpu>) {
    LibDrmAmdgpu::new().ok()
}

/// Relies on `AMDGPU::get_all_amdgpu_pci_bus`: every PCI device the AMD
/// kernel driver claims, empty when there is none.
#[verifier::external_body]
fn amdgpu_pci_buses() -> (r: Vec<PCI::BUS_INFO>) {
    AMDGPU::get_all_amdgpu_pci_bus()
}

/// Relies on `PCI::BUS_INFO::get_drm_render_path`: the device's
/// render-node path.
#[verifier::external_body]
fn render_path(bus: &PCI::BUS_INFO) -> (r: Option<String>) {
    match bus.get_drm_render_path() {
        Ok(p) => Some(p.to_string_lossy().into_owned()),
        Err(_) => None,
    }
}

/// Relies on `LibDrmAmdgpu::init_device_handle`: initializes a device
/// handle over an open render-node descriptor (the native library
/// duplicates the descriptor internally).
#[verifier::external_body]
#[allow(deprecated)]
fn init_device(drm: &LibDrmAmdgpu, fd: i32) -> (r: Option<DeviceHandle>) {
    match drm.init_device_handle(fd) {
        Ok((device, _, _)) => Some(device),
        Err(_) => None,
    }
}

/// Relies on `DeviceHandle::device_info`: the driver's device-information
/// record.
#[verifier::external_body]
fn device_info(device: &DeviceHandle) -> (r: Option<drm_amdgpu_info_device>) {
    device.device_info().ok()
}

/// Relies on `GPU_INFO::find_device_name_or_default`: the marketing name
/// from the driver's device-name table, or the driver's default name.
#[verifier::external_body]
fn info_device_name(info: &drm_amdgpu_info_device) -> (r: String) {
    info.find_device_name_or_default()
}

/// Relies on `GPU_INFO::get_family_name`: the chip family name from the
/// driver's family table.
#[verifier::external_body]
fn info_family_name(info: &drm_amdgpu_info_device) -> (r: String) {
    info.get_family_name().to_string()
}

/// Relies on `GPU_INFO::device_id`: the PCI device id from the record.
#[verifier::external_body]
fn info_device_id(info: &drm_amdgpu_info_device) -> (r: u32) {
    info.device_id()
}

/// Relies on `DeviceHandle::memory_info`: the VRAM heap's total size and
/// current usage, in bytes.
#[verifier::external_body]
fn vram_info(device: &DeviceHandle) -> (r: Option<(u64, u64)>) {
    match device.memory_info() {
        Ok(m) => Some((m.vram.total_heap_size, m.vram.heap_usage)),
        Err(_) => None,
    }
}

/// Relies on `DeviceHandle::sensor_info` with the GPU load sensor: the
/// load percentage.
#[verifier::external_body]
fn sensor_load(device: &DeviceHandle) -> (r: Option<u32>) {
    device.sensor_info(AMDGPU::SENSOR_INFO::SENSOR_TYPE::GPU_LOAD).ok()
}

/// Relies on `DeviceHandle::sensor_info` with the GPU temperature
/// sensor: the reading in millidegrees Celsius.
#[verifier::external_body]
fn sensor_temperature(device: &DeviceHandle) -> (r: Option<u32>) {
    device.sensor_info(AMDGPU::SENSOR_INFO::SENSOR_TYPE::GPU_TEMP).ok()
}

/// The render-node path of the first device the AMD kernel driver
/// claims, if any.  The frontend opens this path and hands the
/// descriptor to [`active_gpu`].
pub fn first_render_path() -> (r: Option<String>) {
    let buses = amdgpu_pci_buses();
    if buses.len() == 0 {
        None
    } else {
        render_path(&buses[0])
    }
}

/// An AMD device identity, holding the device handle it was resolved
/// through for later telemetry queries.
pub struct AmdGpu {
    device: DeviceHandle,
    vendor: String,
    model: String,
    family: String,
    device_id: u32,
}

impl Gpu for AmdGpu {
    closed spec fn desc(&self) -> GpuDesc {
        GpuDesc {
            vendor: self.vendor@,
            model: self.model@,
            family: self.family@,
            device_id: self.device_id,
        }
    }

    fn vendor(&self) -> (r: &str) {
        self.vendor.as_str()
    }

    fn model(&self) -> (r: &str) {
        self.model.as_str()
    }

    fn family(&self) -> (r: &str) {
        self.family.as_str()
    }

    fn device_id(&self) -> (r: &u32) {
        &self.device_id
    }
}

impl GpuInfo for AmdGpu {
    open spec fn total_vram_post(&self, r: u64) -> bool {
        true
    }

    open spec fn used_vram_post(&self, r: u64) -> bool {
        true
    }

    /// Every reading this accessor hands out lies in the canonical
    /// 0-100 percent range: a sensor value above it clamps to the bound.
    open spec fn load_pct_post(&self, r: u32) -> bool {
        r <= 100
    }

    open spec fn temperature_post(&self, r: u32) -> bool {
        true
    }

    fn total_vram(&self) -> (r: u64) {
        normalize::sentinel_total_or_zero(vram_info(&self.device))
    }

    fn used_vram(&self) -> (r: u64) {
        normalize::sentinel_used_or_zero(vram_info(&self.device))
    }

    fn load_pct(&self) -> (r: u32) {
        normalize::clamp_pct(normalize::sentinel_or_u32(sensor_load(&self.device)))
    }

    fn temperature(&self) -> (r: u32) {
        normalize::sentinel_or_u32(sensor_temperature(&self.device))
    }
}

/// Probe the AMD driver path over an already-open render-node
/// descriptor.  Failure to load the driver libraries is
/// `SourceUnavailable`; any failure after that is `NotFound`.
pub fn active_gpu(fd: i32) -> (r: Result<AmdGpu, ProbeError>)
    ensures
        r matches Ok(g) ==> g.desc().vendor == "AMD"@,
{
    let drm = match drm_load() {
        Some(d) => d,
        None => return Err(ProbeError::SourceUnavailable),
    };
    let device = match init_device(&drm, fd) {
        Some(d) => d,
        None => return Err(ProbeError::NotFound),
    };
    let info = match device_info(&device) {
        Some(i) => i,
        None => return Err(ProbeError::NotFound),
    };
    let model = info_device_name(&info);
    let family = info_family_name(&info);
    let device_id = info_device_id(&info);
    Ok(AmdGpu { device, vendor: "AMD".to_owned(), model, family, device_id })
}

} // verus!
