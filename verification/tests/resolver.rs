use gfxinfo::resolve::{
    Adapter, AdapterKind, Attempt, AttemptOutcome, GpuHandle, MockGpu, MockReply, MockSource,
    resolve,
};
use gfxinfo::{Gpu, GpuError, GpuInfo};

fn mock_device() -> MockGpu {
    MockGpu {
        vendor: "AMD".to_string(),
        model: "Test".to_string(),
        family: "Navi".to_string(),
        device_id: 0x1234,
        total_vram: Some(8 * 1024 * 1024 * 1024),
        used_vram: Some(1024),
        load_pct: Some(42),
        temperature: Some(45000),
    }
}

fn slot(reply: MockReply) -> Adapter {
    Adapter::Mock(MockSource { reply, probes: 0 })
}

fn probes_of(a: &Adapter) -> u64 {
    match a {
        Adapter::Mock(m) => m.probes,
        _ => panic!("not a scripted slot"),
    }
}

#[test]
fn first_success_wins_and_later_adapters_are_not_invoked() {
    // A: SourceUnavailable, B: NotFound, C: success, D: would also
    // succeed but must never be probed.
    let mut other = mock_device();
    other.vendor = "Other".to_string();
    let adapters = vec![
        slot(MockReply::SourceUnavailable),
        slot(MockReply::NotFound),
        slot(MockReply::Gpu(mock_device())),
        slot(MockReply::Gpu(other)),
    ];
    let (res, trace, chain) = resolve(adapters);

    // C's descriptor comes back unmodified.
    let handle = res.expect("resolution must succeed");
    assert_eq!(handle.vendor(), "AMD");
    assert_eq!(handle.model(), "Test");
    assert_eq!(handle.family(), "Navi");
    assert_eq!(*handle.device_id(), 0x1234);

    // The trace records the three attempts, in order, and no more.
    assert_eq!(
        trace,
        vec![
            Attempt { kind: AdapterKind::Mock, outcome: AttemptOutcome::SourceUnavailable },
            Attempt { kind: AdapterKind::Mock, outcome: AttemptOutcome::NotFound },
            Attempt { kind: AdapterKind::Mock, outcome: AttemptOutcome::Found },
        ]
    );

    // Everything up to C was probed exactly once; D was never invoked.
    assert_eq!(probes_of(&chain[0]), 1);
    assert_eq!(probes_of(&chain[1]), 1);
    assert_eq!(probes_of(&chain[2]), 1);
    assert_eq!(probes_of(&chain[3]), 0);
}

#[test]
fn all_failures_collapse_to_no_gpu_found() {
    let adapters = vec![
        slot(MockReply::SourceUnavailable),
        slot(MockReply::NotFound),
        slot(MockReply::SourceUnavailable),
    ];
    let (res, trace, chain) = resolve(adapters);

    match res {
        Err(e) => assert_eq!(e, GpuError::NoGpuFound),
        Ok(_) => panic!("resolution must fail"),
    }

    // Every configured adapter was attempted exactly once, in order.
    assert_eq!(trace.len(), 3);
    assert_eq!(trace[0].outcome, AttemptOutcome::SourceUnavailable);
    assert_eq!(trace[1].outcome, AttemptOutcome::NotFound);
    assert_eq!(trace[2].outcome, AttemptOutcome::SourceUnavailable);
    for a in &chain {
        assert_eq!(probes_of(a), 1);
    }
}

#[test]
fn empty_chain_finds_nothing() {
    let (res, trace, chain) = resolve(Vec::new());
    assert!(res.is_err());
    assert!(trace.is_empty());
    assert!(chain.is_empty());
}

#[test]
fn identity_getters_are_idempotent() {
    let adapters = vec![slot(MockReply::Gpu(mock_device()))];
    let (res, _, _) = resolve(adapters);
    let handle = res.expect("resolution must succeed");

    // Two reads of each identity field return identical values.
    assert_eq!(handle.vendor(), handle.vendor());
    assert_eq!(handle.model(), handle.model());
    assert_eq!(handle.family(), handle.family());
    assert_eq!(handle.device_id(), handle.device_id());
}

#[test]
fn descriptor_is_fully_populated_on_success() {
    let adapters = vec![slot(MockReply::Gpu(mock_device()))];
    let (res, _, _) = resolve(adapters);
    let handle = res.expect("resolution must succeed");

    // All four identity fields are present at once; none is pending.
    assert!(!handle.vendor().is_empty());
    assert!(!handle.model().is_empty());
    assert!(!handle.family().is_empty());
    assert_eq!(*handle.device_id(), 0x1234);
}

#[test]
fn telemetry_reads_through_the_handle() {
    let adapters = vec![slot(MockReply::Gpu(mock_device()))];
    let (res, _, _) = resolve(adapters);
    let handle = res.expect("resolution must succeed");

    assert_eq!(handle.total_vram(), 8 * 1024 * 1024 * 1024);
    assert_eq!(handle.used_vram(), 1024);
    assert_eq!(handle.load_pct(), 42);
    assert_eq!(handle.temperature(), 45000);
}

#[test]
fn handle_delegates_to_platform_views() {
    let vendor_id: Vec<u8> = vec![0x02, 0x10, 0x00, 0x00];
    let gpu = gfxinfo::macos::MacGpu::from_registry_properties(&vendor_id, "M1".to_string());
    let info = gfxinfo::macos::MacGpuInfo::from_performance_stats(Some(5), None);
    let handle = GpuHandle::Mac(gpu, info);
    assert_eq!(handle.vendor(), "1002");
    assert_eq!(handle.family(), "N/A");
    assert_eq!(handle.used_vram(), 5);
    assert_eq!(handle.load_pct(), 0);
    assert_eq!(handle.total_vram(), 0);

    let gpu = gfxinfo::windows::WindowsGpu::from_video_controller(
        "Model".to_string(),
        "Vendor".to_string(),
        "Family".to_string(),
        2048,
    );
    let info = gpu.info(Some(1500), None);
    let handle = GpuHandle::Windows(gpu, info);
    assert_eq!(handle.vendor(), "Vendor");
    assert_eq!(handle.total_vram(), 2048);
    assert_eq!(handle.used_vram(), 2);
    assert_eq!(handle.temperature(), 0);
}

#[test]
fn missing_metrics_read_as_zero_never_an_error() {
    // A source that lacks every metric: each accessor returns the
    // sentinel 0.
    let bare = MockGpu {
        vendor: "Vendor".to_string(),
        model: "Model".to_string(),
        family: "Family".to_string(),
        device_id: 0,
        total_vram: None,
        used_vram: None,
        load_pct: None,
        temperature: None,
    };
    let handle = GpuHandle::Mock(bare);
    assert_eq!(handle.total_vram(), 0);
    assert_eq!(handle.used_vram(), 0);
    assert_eq!(handle.load_pct(), 0);
    assert_eq!(handle.temperature(), 0);
}
