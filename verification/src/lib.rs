//! Discovery of the active GPU and a vendor-agnostic view of its identity
//! and live telemetry.
//!
//! Vendor- and platform-specific data sources sit behind a uniform probe
//! contract; a resolver tries them in priority order and returns the first
//! device whose identity could be read in full.  Telemetry values are
//! normalized to one unit system (bytes, millidegrees Celsius, 0-100 integer
//! percent), and any metric the underlying source cannot deliver reads as
//! the sentinel `0` rather than an error.

use vstd::prelude::*;

pub mod amd;
pub mod intel;
pub mod linux;
pub mod nvidia;
pub mod macos;
pub mod normalize;
pub mod resolve;
pub mod util;
pub mod windows;

verus! {

/// Mathematical view of a fully resolved device identity: the four fields
/// every successful probe must deliver.  There is no partially populated
/// state; a handle either has all four or does not exist.
pub ghost struct GpuDesc {
    pub vendor: Seq<char>,
    pub model: Seq<char>,
    pub family: Seq<char>,
    pub device_id: u32,
}

/// Why a single adapter's probe did not yield a device.
///
/// `SourceUnavailable` means the native facility itself could not
/// initialize (driver library missing, service connection refused);
/// `NotFound` means the facility initialized but enumerated no matching
/// device.  Both are recovered locally by the resolver, which moves on to
/// the next adapter.
#[derive(Clone, Copy, PartialEq, Eq, Structural, Debug)]
pub enum ProbeError {
    NotFound,
    SourceUnavailable,
}

/// The single outward failure of the public facade: every configured
/// adapter was exhausted without a successful identity probe.
#[derive(Clone, Copy, PartialEq, Eq, Structural, Debug)]
pub enum GpuError {
    NoGpuFound,
}

impl GpuError {
    /// Human-readable form of the failure.
    pub fn describe(&self) -> (r: &'static str)
        ensures
            r@ == "No GPU found"@,
    {
        "No GPU found"
    }
}

/// Uniform identity view over a resolved device.
///
/// The identity fields are copied out of the native source when the handle
/// is constructed and never change afterwards: each getter takes `&self`
/// and returns exactly the corresponding component of `desc()`, so two
/// calls on the same handle always return identical values.
pub trait Gpu {
    /// The identity this handle carries, as an abstract value.
    spec fn desc(&self) -> GpuDesc;

    /// The GPU vendor (e.g. "AMD", "Nvidia").
    fn vendor(&self) -> (r: &str)
        ensures
            r@ == self.desc().vendor,
    ;

    /// The GPU model (e.g. "Radeon RX 6800", "GeForce RTX 3070").
    fn model(&self) -> (r: &str)
        ensures
            r@ == self.desc().model,
    ;

    /// The GPU family (e.g. "Navi", "GeForceRTX").
    fn family(&self) -> (r: &str)
        ensures
            r@ == self.desc().family,
    ;

    /// The vendor-assigned numeric device id; `0` is a valid "unknown"
    /// value, never an error signal.
    fn device_id(&self) -> (r: &u32)
        ensures
            *r == self.desc().device_id,
    ;
}

/// Uniform telemetry view over a resolved device.
///
/// Every accessor is independently fault-tolerant: a metric the underlying
/// source lacks, or a read that fails, yields `0` for that metric alone.
/// Callers cannot distinguish a measured zero from an unsupported metric.
/// Each implementation pins down what it promises of a result through the
/// corresponding `*_post` predicate.
pub trait GpuInfo {
    /// What `total_vram` promises of its result.
    spec fn total_vram_post(&self, r: u64) -> bool;

    /// What `used_vram` promises of its result.
    spec fn used_vram_post(&self, r: u64) -> bool;

    /// What `load_pct` promises of its result.
    spec fn load_pct_post(&self, r: u32) -> bool;

    /// What `temperature` promises of its result.
    spec fn temperature_post(&self, r: u32) -> bool;

    /// Total VRAM in bytes, or `0` when unavailable.
    fn total_vram(&self) -> (r: u64)
        ensures
            self.total_vram_post(r),
    ;

    /// Used VRAM in bytes, or `0` when unavailable.
    fn used_vram(&self) -> (r: u64)
        ensures
            self.used_vram_post(r),
    ;

    /// Load percentage (0-100 by the native sources' contract), or `0`
    /// when unavailable.
    fn load_pct(&self) -> (r: u32)
        ensures
            self.load_pct_post(r),
    ;

    /// Temperature in millidegrees Celsius, or `0` when unavailable.
    fn temperature(&self) -> (r: u32)
        ensures
            self.temperature_post(r),
    ;
}

/// Resolve the currently active GPU through this platform's fallback
/// chain, invoked exactly once: no caching, no retries, no polling.
///
/// The AMD slot probes over an already-open render-node descriptor; the
/// frontend enumerates and opens the node (see
/// [`amd::first_render_path`]) and hands the descriptor in, or `None`
/// when there is nothing to open.
pub fn active_gpu(amd_fd: Option<i32>) -> (r: Result<resolve::GpuHandle, GpuError>)
    ensures
        r matches Ok(h) ==> (h matches resolve::GpuHandle::Amd(g) && g.desc().vendor == "AMD"@)
            || (h matches resolve::GpuHandle::Nvidia(g) && g.desc().vendor == "Nvidia"@),
        r matches Err(e) ==> e == GpuError::NoGpuFound,
{
    linux::active_gpu(amd_fd)
}

/// [`active_gpu`] with the probe trace as an auxiliary output: one record
/// per probe actually made, in declared priority order.  A `NoGpuFound`
/// result comes with a trace showing that every configured adapter was
/// attempted exactly once, in order, and that none succeeded.
pub fn active_gpu_with_trace(amd_fd: Option<i32>) -> (r: (
    Result<resolve::GpuHandle, GpuError>,
    Vec<resolve::Attempt>,
))
    ensures
        r.1@.len() <= 3,
        forall|i: int| 0 <= i < r.1@.len() ==> (#[trigger] r.1@[i]).kind == linux::chain_kind(i),
        r.0 matches Ok(h) ==> ({
            &&& (h matches resolve::GpuHandle::Amd(g) && g.desc().vendor == "AMD"@) || (
            h matches resolve::GpuHandle::Nvidia(g) && g.desc().vendor == "Nvidia"@)
            &&& r.1@.len() >= 1
            &&& r.1@.last().outcome == resolve::AttemptOutcome::Found
            &&& forall|i: int|
                0 <= i < r.1@.len() - 1 ==> (#[trigger] r.1@[i]).outcome
                    != resolve::AttemptOutcome::Found
        }),
        r.0 matches Err(e) ==> ({
            &&& e == GpuError::NoGpuFound
            &&& r.1@.len() == 3
            &&& forall|i: int|
                0 <= i < r.1@.len() ==> (#[trigger] r.1@[i]).outcome
                    != resolve::AttemptOutcome::Found
        }),
{
    linux::active_gpu_with_trace(amd_fd)
}

} // verus!
