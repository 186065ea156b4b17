use gfxinfo::macos::{DataType, MacGpu, MacGpuInfo, RegistryEntry, performance_stat};
use gfxinfo::resolve::GpuHandle;
use gfxinfo::windows::VideoController;
use gfxinfo::nvidia::{GpuBrand, brand_to_string};
use gfxinfo::util::pci::vendor_id_to_name;
use gfxinfo::windows::WindowsGpu;
use gfxinfo::{Gpu, GpuError, GpuInfo, ProbeError};

#[test]
fn pci_vendor_names() {
    assert_eq!(vendor_id_to_name(0x1002), "AMD");
    assert_eq!(vendor_id_to_name(0x10DE), "Nvidia");
    assert_eq!(vendor_id_to_name(0x8086), "Intel");
    assert_eq!(vendor_id_to_name(0x106B), "Apple");
    assert_eq!(vendor_id_to_name(0x0000), "Unknown");
    assert_eq!(vendor_id_to_name(0xFFFF), "Unknown");
}

#[test]
fn brand_names() {
    assert_eq!(brand_to_string(GpuBrand::GeForce), "GeForce");
    assert_eq!(brand_to_string(GpuBrand::GeForceRTX), "GeForceRTX");
    assert_eq!(brand_to_string(GpuBrand::Quadro), "Quadro");
    assert_eq!(brand_to_string(GpuBrand::Tesla), "Tesla");
    assert_eq!(brand_to_string(GpuBrand::TitanRTX), "TitanRTX");
    assert_eq!(brand_to_string(GpuBrand::Unknown), "Unknown");
    assert_eq!(brand_to_string(GpuBrand::VGaming), "VGaming");
}

#[test]
fn intel_probe_reports_source_unavailable() {
    match gfxinfo::intel::active_gpu() {
        Err(e) => assert_eq!(e, ProbeError::SourceUnavailable),
        Ok(_) => panic!("the Intel capability is unimplemented"),
    }
}

#[test]
fn mac_identity_from_registry_properties() {
    // The vendor string is the raw byte-reversed hex of the vendor-id
    // property, not a resolved vendor name.
    let vendor_id: Vec<u8> = vec![0x02, 0x10, 0x00, 0x00];
    let gpu = MacGpu::from_registry_properties(&vendor_id, "Apple M1".to_string());
    assert_eq!(gpu.vendor(), "1002");
    assert_eq!(gpu.model(), "Apple M1");
    assert_eq!(gpu.family(), "N/A");
    assert_eq!(*gpu.device_id(), 0);
}

#[test]
fn mac_telemetry_sentinels() {
    // Total VRAM and temperature are unsupported on this path; the two
    // supported statistics fall back to 0 when the dictionary lacks them.
    let info = MacGpuInfo::from_performance_stats(None, None);
    assert_eq!(info.total_vram(), 0);
    assert_eq!(info.used_vram(), 0);
    assert_eq!(info.load_pct(), 0);
    assert_eq!(info.temperature(), 0);

    let info = MacGpuInfo::from_performance_stats(Some(123456), Some(37));
    assert_eq!(info.total_vram(), 0);
    assert_eq!(info.used_vram(), 123456);
    assert_eq!(info.load_pct(), 37);
    assert_eq!(info.temperature(), 0);
}

#[test]
fn windows_identity_from_video_controller_row() {
    let gpu = WindowsGpu::from_video_controller(
        "Radeon RX 6800".to_string(),
        "AMD Radeon Graphics Processor".to_string(),
        "Advanced Micro Devices, Inc.".to_string(),
        0x4000_0000,
    );
    assert_eq!(gpu.vendor(), "AMD Radeon Graphics Processor");
    assert_eq!(gpu.model(), "Radeon RX 6800");
    assert_eq!(gpu.family(), "Advanced Micro Devices, Inc.");
    assert_eq!(*gpu.device_id(), 0);
}

#[test]
fn windows_telemetry_normalizes_counters() {
    let gpu = WindowsGpu::from_video_controller(
        "Model".to_string(),
        "Vendor".to_string(),
        "Family".to_string(),
        1024,
    );
    // The total captured at identity time; a 63.6-unit counter reading
    // rounds to 64; temperature is unsupported on this backend.
    let info = gpu.info(Some(63600), Some(63600));
    assert_eq!(info.total_vram(), 1024);
    assert_eq!(info.used_vram(), 64);
    assert_eq!(info.load_pct(), 64);
    assert_eq!(info.temperature(), 0);

    // Failed counter reads fall back to the sentinel.
    let info = gpu.info(None, None);
    assert_eq!(info.total_vram(), 1024);
    assert_eq!(info.used_vram(), 0);
    assert_eq!(info.load_pct(), 0);
    assert_eq!(info.temperature(), 0);
}

#[test]
fn mac_resolution_takes_the_first_full_entry() {
    let entries = vec![RegistryEntry {
        vendor_id: Some(vec![0x02, 0x10, 0x00, 0x00]),
        model: Some("Apple M1".to_string()),
    }];
    let gpu = gfxinfo::macos::active_gpu(&entries).expect("resolution must succeed");
    assert_eq!(gpu.vendor(), "1002");
    assert_eq!(gpu.model(), "Apple M1");
}

#[test]
fn mac_resolution_fails_without_entries_or_properties() {
    assert!(matches!(
        gfxinfo::macos::active_gpu(&Vec::new()),
        Err(ProbeError::NotFound)
    ));
    let entries = vec![RegistryEntry {
        vendor_id: Some(vec![0x02, 0x10]),
        model: None,
    }];
    assert!(matches!(
        gfxinfo::macos::active_gpu(&entries),
        Err(ProbeError::NotFound)
    ));
}

#[test]
fn performance_stat_interpretation() {
    assert_eq!(performance_stat(Some(37), DataType::Number), Ok(37));
    // Negative readings clamp to 0.
    assert_eq!(performance_stat(Some(-5), DataType::Number), Ok(0));
    assert!(performance_stat(None, DataType::Number).is_err());
    assert!(performance_stat(Some(1), DataType::_String).is_err());
}

#[test]
fn windows_resolution_falls_back_to_the_first_row() {
    let rows = vec![VideoController {
        name: "Radeon RX 6800".to_string(),
        video_processor: "AMD Radeon Graphics Processor".to_string(),
        adapter_compatibility: "Advanced Micro Devices, Inc.".to_string(),
        device_id: "VideoController1".to_string(),
        adapter_ram: 1024,
    }];
    match gfxinfo::windows::active_gpu(&rows) {
        Ok(GpuHandle::Windows(gpu, info)) => {
            assert_eq!(gpu.vendor(), "AMD Radeon Graphics Processor");
            assert_eq!(gpu.model(), "Radeon RX 6800");
            assert_eq!(info.total_vram(), 1024);
            assert_eq!(info.temperature(), 0);
        }
        // A host that actually has the management library resolves
        // through it instead.
        Ok(GpuHandle::Nvidia(gpu)) => assert_eq!(gpu.vendor(), "Nvidia"),
        other => panic!("unexpected resolution: {:?}", other.is_ok()),
    }
}

#[test]
fn windows_resolution_without_rows_or_library_is_a_miss() {
    match gfxinfo::windows::active_gpu(&Vec::new()) {
        Err(e) => assert_eq!(e, ProbeError::NotFound),
        Ok(GpuHandle::Nvidia(gpu)) => assert_eq!(gpu.vendor(), "Nvidia"),
        Ok(_) => panic!("no row to resolve from"),
    }
}

#[test]
fn counter_value_rounds_or_reports_the_failure() {
    assert_eq!(gfxinfo::windows::counter_value(Some(63600)), Ok(64));
    assert_eq!(gfxinfo::windows::counter_value(Some(63400)), Ok(63));
    assert!(gfxinfo::windows::counter_value(None).is_err());
    assert!(gfxinfo::windows::counter_value(Some(u64::MAX)).is_err());
}

#[test]
fn no_gpu_found_message() {
    assert_eq!(GpuError::NoGpuFound.describe(), "No GPU found");
}
