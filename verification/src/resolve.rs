//! The backend resolver: an ordered fallback chain over telemetry source
//! adapters.
//!
//! The policy is first success wins — no scoring, no preference between
//! discrete and integrated devices, no multi-GPU awareness.  Each probe
//! is one-shot; an adapter failure of either kind is absorbed and the
//! next adapter tried; once one adapter yields a device, no later adapter
//! is invoked.  Every attempt leaves a structured record in a trace, so
//! callers can see what was tried without that detail becoming the
//! control-flow signal: when every adapter fails, the chain still
//! collapses to the one uniform `NoGpuFound` error.

use vstd::prelude::*;

use crate::amd::AmdGpu;
use crate::intel::IntelGpu;
use crate::macos::{MacGpu, MacGpuInfo};
use crate::nvidia::NvidiaGpu;
use crate::windows::{WindowsGpu, WindowsGpuInfo};
use crate::{Gpu, GpuDesc, GpuError, GpuInfo, ProbeError, amd, intel, normalize, nvidia};

verus! {

/// A scripted device: identity plus the telemetry readings its source
/// pretends to deliver, with `None` for a metric the source lacks.
pub struct MockGpu {
    pub vendor: String,
    pub model: String,
    pub family: String,
    pub device_id: u32,
    pub total_vram: Option<u64>,
    pub used_vram: Option<u64>,
    pub load_pct: Option<u32>,
    pub temperature: Option<u32>,
}

impl MockGpu {
    /// An identical copy.
    pub fn cloned(&self) -> (r: MockGpu)
        ensures
            r == *self,
    {
        MockGpu {
            vendor: self.vendor.clone(),
            model: self.model.clone(),
            family: self.family.clone(),
            device_id: self.device_id,
            total_vram: self.total_vram,
            used_vram: self.used_vram,
            load_pct: self.load_pct,
            temperature: self.temperature,
        }
    }
}

impl Gpu for MockGpu {
    open spec fn desc(&self) -> GpuDesc {
        GpuDesc {
            vendor: self.vendor@,
            model: self.model@,
            family: self.family@,
            device_id: self.device_id,
        }
    }

    fn vendor(&self) -> (r: &str) {
        self.vendor.as_str()
    }

    fn model(&self) -> (r: &str) {
        self.model.as_str()
    }

    fn family(&self) -> (r: &str) {
        self.family.as_str()
    }

    fn device_id(&self) -> (r: &u32) {
        &self.device_id
    }
}

impl GpuInfo for MockGpu {
    open spec fn total_vram_post(&self, r: u64) -> bool {
        r == normalize::or_zero_u64(self.total_vram)
    }

    open spec fn used_vram_post(&self, r: u64) -> bool {
        r == normalize::or_zero_u64(self.used_vram)
    }

    open spec fn load_pct_post(&self, r: u32) -> bool {
        r == normalize::or_zero_u32(self.load_pct)
    }

    open spec fn temperature_post(&self, r: u32) -> bool {
        r == normalize::or_zero_u32(self.temperature)
    }

    fn total_vram(&self) -> (r: u64) {
        normalize::sentinel_or_u64(self.total_vram)
    }

    fn used_vram(&self) -> (r: u64) {
        normalize::sentinel_or_u64(self.used_vram)
    }

    fn load_pct(&self) -> (r: u32) {
        normalize::sentinel_or_u32(self.load_pct)
    }

    fn temperature(&self) -> (r: u32) {
        normalize::sentinel_or_u32(self.temperature)
    }
}

/// The polymorphic handle the facade returns: one identity-plus-telemetry
/// view per backend.
pub enum GpuHandle {
    Amd(AmdGpu),
    Nvidia(NvidiaGpu),
    Intel(IntelGpu),
    Mac(MacGpu, MacGpuInfo),
    Windows(WindowsGpu, WindowsGpuInfo),
    Mock(MockGpu),
}

impl Gpu for GpuHandle {
    open spec fn desc(&self) -> GpuDesc {
        match self {
            GpuHandle::Amd(g) => g.desc(),
            GpuHandle::Nvidia(g) => g.desc(),
            GpuHandle::Intel(g) => g.desc(),
            GpuHandle::Mac(g, _) => g.desc(),
            GpuHandle::Windows(g, _) => g.desc(),
            GpuHandle::Mock(g) => g.desc(),
        }
    }

    fn vendor(&self) -> (r: &str) {
        match self {
            GpuHandle::Amd(g) => g.vendor(),
            GpuHandle::Nvidia(g) => g.vendor(),
            GpuHandle::Intel(g) => g.vendor(),
            GpuHandle::Mac(g, _) => g.vendor(),
            GpuHandle::Windows(g, _) => g.vendor(),
            GpuHandle::Mock(g) => g.vendor(),
        }
    }

    fn model(&self) -> (r: &str) {
        match self {
            GpuHandle::Amd(g) => g.model(),
            GpuHandle::Nvidia(g) => g.model(),
            GpuHandle::Intel(g) => g.model(),
            GpuHandle::Mac(g, _) => g.model(),
            GpuHandle::Windows(g, _) => g.model(),
            GpuHandle::Mock(g) => g.model(),
        }
    }

    fn family(&self) -> (r: &str) {
        match self {
            GpuHandle::Amd(g) => g.family(),
            GpuHandle::Nvidia(g) => g.family(),
            GpuHandle::Intel(g) => g.family(),
            GpuHandle::Mac(g, _) => g.family(),
            GpuHandle::Windows(g, _) => g.family(),
            GpuHandle::Mock(g) => g.family(),
        }
    }

    fn device_id(&self) -> (r: &u32) {
        match self {
            GpuHandle::Amd(g) => g.device_id(),
            GpuHandle::Nvidia(g) => g.device_id(),
            GpuHandle::Intel(g) => g.device_id(),
            GpuHandle::Mac(g, _) => g.device_id(),
            GpuHandle::Windows(g, _) => g.device_id(),
            GpuHandle::Mock(g) => g.device_id(),
        }
    }
}

impl GpuInfo for GpuHandle {
    open spec fn total_vram_post(&self, r: u64) -> bool {
        match self {
            GpuHandle::Amd(g) => g.total_vram_post(r),
            GpuHandle::Nvidia(g) => g.total_vram_post(r),
            GpuHandle::Intel(g) => g.total_vram_post(r),
            GpuHandle::Mac(_, i) => i.total_vram_post(r),
            GpuHandle::Windows(_, i) => i.total_vram_post(r),
            GpuHandle::Mock(g) => g.total_vram_post(r),
        }
    }

    open spec fn used_vram_post(&self, r: u64) -> bool {
        match self {
            GpuHandle::Amd(g) => g.used_vram_post(r),
            GpuHandle::Nvidia(g) => g.used_vram_post(r),
            GpuHandle::Intel(g) => g.used_vram_post(r),
            GpuHandle::Mac(_, i) => i.used_vram_post(r),
            GpuHandle::Windows(_, i) => i.used_vram_post(r),
            GpuHandle::Mock(g) => g.used_vram_post(r),
        }
    }

    open spec fn load_pct_post(&self, r: u32) -> bool {
        match self {
            GpuHandle::Amd(g) => g.load_pct_post(r),
            GpuHandle::Nvidia(g) => g.load_pct_post(r),
            GpuHandle::Intel(g) => g.load_pct_post(r),
            GpuHandle::Mac(_, i) => i.load_pct_post(r),
            GpuHandle::Windows(_, i) => i.load_pct_post(r),
            GpuHandle::Mock(g) => g.load_pct_post(r),
        }
    }

    open spec fn temperature_post(&self, r: u32) -> bool {
        match self {
            GpuHandle::Amd(g) => g.temperature_post(r),
            GpuHandle::Nvidia(g) => g.temperature_post(r),
            GpuHandle::Intel(g) => g.temperature_post(r),
            GpuHandle::Mac(_, i) => i.temperature_post(r),
            GpuHandle::Windows(_, i) => i.temperature_post(r),
            GpuHandle::Mock(g) => g.temperature_post(r),
        }
    }

    fn total_vram(&self) -> (r: u64) {
        match self {
            GpuHandle::Amd(g) => g.total_vram(),
            GpuHandle::Nvidia(g) => g.total_vram(),
            GpuHandle::Intel(g) => g.total_vram(),
            GpuHandle::Mac(_, i) => i.total_vram(),
            GpuHandle::Windows(_, i) => i.total_vram(),
            GpuHandle::Mock(g) => g.total_vram(),
        }
    }

    fn used_vram(&self) -> (r: u64) {
        match self {
            GpuHandle::Amd(g) => g.used_vram(),
            GpuHandle::Nvidia(g) => g.used_vram(),
            GpuHandle::Intel(g) => g.used_vram(),
            GpuHandle::Mac(_, i) => i.used_vram(),
            GpuHandle::Windows(_, i) => i.used_vram(),
            GpuHandle::Mock(g) => g.used_vram(),
        }
    }

    fn load_pct(&self) -> (r: u32) {
        match self {
            GpuHandle::Amd(g) => g.load_pct(),
            GpuHandle::Nvidia(g) => g.load_pct(),
            GpuHandle::Intel(g) => g.load_pct(),
            GpuHandle::Mac(_, i) => i.load_pct(),
            GpuHandle::Windows(_, i) => i.load_pct(),
            GpuHandle::Mock(g) => g.load_pct(),
        }
    }

    fn temperature(&self) -> (r: u32) {
        match self {
            GpuHandle::Amd(g) => g.temperature(),
            GpuHandle::Nvidia(g) => g.temperature(),
            GpuHandle::Intel(g) => g.temperature(),
            GpuHandle::Mac(_, i) => i.temperature(),
            GpuHandle::Windows(_, i) => i.temperature(),
            GpuHandle::Mock(g) => g.temperature(),
        }
    }
}

/// What one probe attempt produced: the resolved handle, or one of the
/// two absorbed failure kinds.
pub enum ProbeOutcome {
    Found(GpuHandle),
    NotFound,
    SourceUnavailable,
}

/// Which adapter a chain slot holds.
#[derive(Clone, Copy, PartialEq, Eq, Structural, Debug)]
pub enum AdapterKind {
    Amd,
    Nvidia,
    Intel,
    Mock,
}

/// The outcome kind recorded in the trace.
#[derive(Clone, Copy, PartialEq, Eq, Structural, Debug)]
pub enum AttemptOutcome {
    Found,
    NotFound,
    SourceUnavailable,
}

/// One record of the trace: which adapter was probed, and what came of
/// it.
#[derive(Clone, Copy, PartialEq, Eq, Structural, Debug)]
pub struct Attempt {
    pub kind: AdapterKind,
    pub outcome: AttemptOutcome,
}

/// The AMD chain slot.  The render node's file descriptor is opened by
/// the frontend; `None` means enumeration found no node or the open
/// failed, which the probe reports as `NotFound`.
pub struct AmdSource {
    pub fd: Option<i32>,
}

/// The Nvidia chain slot; the management library is loaded at probe
/// time.
pub struct NvidiaSource {}

/// The Intel chain slot; the capability is unimplemented.
pub struct IntelSource {}

/// A scripted chain slot for exercising the resolver: it replies as
/// scripted and counts how often it was probed.
pub struct MockSource {
    pub reply: MockReply,
    pub probes: u64,
}

/// What a scripted slot replies when probed.
pub enum MockReply {
    Gpu(MockGpu),
    NotFound,
    SourceUnavailable,
}

/// One slot of the fallback chain.
pub enum Adapter {
    Amd(AmdSource),
    Nvidia(NvidiaSource),
    Intel(IntelSource),
    Mock(MockSource),
}

/// The outcome kind a scripted reply produces.
pub open spec fn mock_reply_outcome(reply: MockReply) -> AttemptOutcome {
    match reply {
        MockReply::Gpu(_) => AttemptOutcome::Found,
        MockReply::NotFound => AttemptOutcome::NotFound,
        MockReply::SourceUnavailable => AttemptOutcome::SourceUnavailable,
    }
}

/// What a successful probe of each adapter kind guarantees of the handle
/// it yields.  The Intel probe never succeeds.
pub open spec fn found_handle_ok(kind: AdapterKind, h: GpuHandle) -> bool {
    match kind {
        AdapterKind::Amd => h matches GpuHandle::Amd(g) && g.desc().vendor == "AMD"@,
        AdapterKind::Nvidia => h matches GpuHandle::Nvidia(g) && g.desc().vendor == "Nvidia"@,
        AdapterKind::Intel => false,
        AdapterKind::Mock => h is Mock,
    }
}

/// A scripted reply and the probe outcome it must produce.
pub open spec fn mock_outcome_matches(reply: MockReply, out: ProbeOutcome) -> bool {
    match reply {
        MockReply::Gpu(g) => out == ProbeOutcome::Found(GpuHandle::Mock(g)),
        MockReply::NotFound => out is NotFound,
        MockReply::SourceUnavailable => out is SourceUnavailable,
    }
}

/// How one probe leaves the probed slot: a scripted slot has its counter
/// stepped and its reply kept; every other slot is returned as it was.
pub open spec fn probed_once(pre: Adapter, post: Adapter) -> bool {
    match pre {
        Adapter::Mock(m) => post == Adapter::Mock(
            MockSource { reply: m.reply, probes: (m.probes + 1) as u64 },
        ),
        _ => post == pre,
    }
}

/// The probe counter of a scripted slot has room to step.
pub open spec fn probes_bounded(a: Adapter) -> bool {
    match a {
        Adapter::Mock(m) => m.probes < u64::MAX,
        _ => true,
    }
}

/// A scripted slot's reply is recorded faithfully in its trace entry.
pub open spec fn mock_recorded(pre: Adapter, att: Attempt) -> bool {
    pre matches Adapter::Mock(m) ==> att.outcome == mock_reply_outcome(m.reply)
}

/// A device resolved from a scripted slot is that slot's scripted device,
/// unmodified.
pub open spec fn mock_found_match(pre: Adapter, h: GpuHandle) -> bool {
    pre matches Adapter::Mock(m) ==> (m.reply matches MockReply::Gpu(g) && h == GpuHandle::Mock(
        g,
    ))
}

impl Adapter {
    /// Which adapter this slot holds.
    pub open spec fn kind(self) -> AdapterKind {
        match self {
            Adapter::Amd(_) => AdapterKind::Amd,
            Adapter::Nvidia(_) => AdapterKind::Nvidia,
            Adapter::Intel(_) => AdapterKind::Intel,
            Adapter::Mock(_) => AdapterKind::Mock,
        }
    }

    /// Which adapter this slot holds.
    pub fn which_kind(&self) -> (k: AdapterKind)
        ensures
            k == self.kind(),
    {
        match self {
            Adapter::Amd(_) => AdapterKind::Amd,
            Adapter::Nvidia(_) => AdapterKind::Nvidia,
            Adapter::Intel(_) => AdapterKind::Intel,
            Adapter::Mock(_) => AdapterKind::Mock,
        }
    }

    /// One probe of this slot: all-or-nothing identity resolution, with
    /// the slot handed back for the next round.
    pub fn probe(self) -> (r: (Adapter, ProbeOutcome))
        requires
            probes_bounded(self),
        ensures
            r.0.kind() == self.kind(),
            probed_once(self, r.0),
            self matches Adapter::Mock(m) ==> mock_outcome_matches(m.reply, r.1),
            r.1 matches ProbeOutcome::Found(h) ==> found_handle_ok(self.kind(), h),
    {
        match self {
            Adapter::Amd(src) => {
                let out = match src.fd {
                    Some(fd) => match amd::active_gpu(fd) {
                        Ok(g) => ProbeOutcome::Found(GpuHandle::Amd(g)),
                        Err(ProbeError::NotFound) => ProbeOutcome::NotFound,
                        Err(ProbeError::SourceUnavailable) => ProbeOutcome::SourceUnavailable,
                    },
                    None => ProbeOutcome::NotFound,
                };
                (Adapter::Amd(src), out)
            },
            Adapter::Nvidia(src) => {
                let out = match nvidia::active_gpu() {
                    Ok(g) => ProbeOutcome::Found(GpuHandle::Nvidia(g)),
                    Err(ProbeError::NotFound) => ProbeOutcome::NotFound,
                    Err(ProbeError::SourceUnavailable) => ProbeOutcome::SourceUnavailable,
                };
                (Adapter::Nvidia(src), out)
            },
            Adapter::Intel(src) => {
                let out = match intel::active_gpu() {
                    Ok(g) => ProbeOutcome::Found(GpuHandle::Intel(g)),
                    Err(ProbeError::NotFound) => ProbeOutcome::NotFound,
                    Err(ProbeError::SourceUnavailable) => ProbeOutcome::SourceUnavailable,
                };
                (Adapter::Intel(src), out)
            },
            Adapter::Mock(m) => {
                let out = match &m.reply {
                    MockReply::Gpu(g) => ProbeOutcome::Found(GpuHandle::Mock(g.cloned())),
                    MockReply::NotFound => ProbeOutcome::NotFound,
                    MockReply::SourceUnavailable => ProbeOutcome::SourceUnavailable,
                };
                let stepped = MockSource { reply: m.reply, probes: m.probes + 1 };
                (Adapter::Mock(stepped), out)
            },
        }
    }
}

/// Try the adapters in order until one yields a device.
///
/// Hands back, in order: the result — the first resolved handle, or
/// `NoGpuFound` once every adapter failed; the trace, one record per
/// probe actually made, in order; and the chain itself, each slot up to
/// and including the successful one probed exactly once and every later
/// slot untouched.
pub fn resolve(adapters: Vec<Adapter>) -> (r: (
    Result<GpuHandle, GpuError>,
    Vec<Attempt>,
    Vec<Adapter>,
))
    requires
        forall|i: int| 0 <= i < adapters@.len() ==> probes_bounded(#[trigger] adapters@[i]),
    ensures
        r.2@.len() == adapters@.len(),
        r.1@.len() <= adapters@.len(),
        forall|i: int| 0 <= i < r.1@.len() ==> (#[trigger] r.1@[i]).kind == adapters@[i].kind(),
        forall|i: int| 0 <= i < r.1@.len() ==> probed_once(adapters@[i], #[trigger] r.2@[i]),
        forall|i: int| r.1@.len() <= i < adapters@.len() ==> #[trigger] r.2@[i] == adapters@[i],
        forall|i: int| 0 <= i < r.1@.len() ==> mock_recorded(adapters@[i], #[trigger] r.1@[i]),
        r.0 matches Ok(h) ==> ({
            &&& r.1@.len() >= 1
            &&& r.1@.last().outcome == AttemptOutcome::Found
            &&& forall|i: int|
                0 <= i < r.1@.len() - 1 ==> (#[trigger] r.1@[i]).outcome != AttemptOutcome::Found
            &&& found_handle_ok(adapters@[r.1@.len() - 1].kind(), h)
            &&& mock_found_match(adapters@[r.1@.len() - 1], h)
        }),
        r.0 matches Err(e) ==> ({
            &&& e == GpuError::NoGpuFound
            &&& r.1@.len() == adapters@.len()
            &&& forall|i: int|
                0 <= i < r.1@.len() ==> (#[trigger] r.1@[i]).outcome != AttemptOutcome::Found
        }),
{
    let ghost orig = adapters@;
    let mut remaining = adapters;
    let mut probed: Vec<Adapter> = Vec::new();
    let mut trace: Vec<Attempt> = Vec::new();
    let mut found: Option<GpuHandle> = None;
    proof {
        assert(orig.skip(0) =~= orig);
    }
    while remaining.len() > 0 && found.is_none()
        invariant
            probed@.len() == trace@.len(),
            probed@.len() + remaining@.len() == orig.len(),
            remaining@ == orig.skip(probed@.len() as int),
            forall|i: int| 0 <= i < orig.len() ==> probes_bounded(#[trigger] orig[i]),
            forall|i: int| 0 <= i < trace@.len() ==> (#[trigger] trace@[i]).kind == orig[i].kind(),
            forall|i: int| 0 <= i < trace@.len() ==> probed_once(orig[i], #[trigger] probed@[i]),
            forall|i: int| 0 <= i < trace@.len() ==> mock_recorded(orig[i], #[trigger] trace@[i]),
            found is None ==> forall|i: int|
                0 <= i < trace@.len() ==> (#[trigger] trace@[i]).outcome != AttemptOutcome::Found,
            found matches Some(h) ==> ({
                &&& trace@.len() >= 1
                &&& trace@.last().outcome == AttemptOutcome::Found
                &&& forall|i: int|
                    0 <= i < trace@.len() - 1 ==> (#[trigger] trace@[i]).outcome
                        != AttemptOutcome::Found
                &&& found_handle_ok(orig[trace@.len() - 1].kind(), h)
                &&& mock_found_match(orig[trace@.len() - 1], h)
            }),
        decreases remaining@.len(),
    {
        let ghost k = probed@.len() as int;
        proof {
            assert(remaining@[0] == orig.skip(k)[0]);
            assert(orig.skip(k)[0] == orig[k]);
        }
        let a = remaining.remove(0);
        proof {
            assert(remaining@ =~= orig.skip(k + 1));
        }
        let kind = a.which_kind();
        let (after, out) = a.probe();
        match out {
            ProbeOutcome::Found(h) => {
                trace.push(Attempt { kind, outcome: AttemptOutcome::Found });
                found = Some(h);
            },
            ProbeOutcome::NotFound => {
                trace.push(Attempt { kind, outcome: AttemptOutcome::NotFound });
            },
            ProbeOutcome::SourceUnavailable => {
                trace.push(Attempt { kind, outcome: AttemptOutcome::SourceUnavailable });
            },
        }
        probed.push(after);
    }
    let ghost probedv = probed@;
    let ghost remv = remaining@;
    let mut chain = probed;
    chain.append(&mut remaining);
    proof {
        assert(chain@ == probedv + remv);
        assert forall|i: int| probedv.len() <= i < orig.len() implies chain@[i] == orig[i] by {
            assert(chain@[i] == remv[i - probedv.len()]);
            assert(remv[i - probedv.len()] == orig.skip(probedv.len() as int)[i - probedv.len()]);
        }
        assert forall|i: int| 0 <= i < probedv.len() implies chain@[i] == probedv[i] by {}
    }
    match found {
        Some(h) => (Ok(h), trace, chain),
        None => (Err(GpuError::NoGpuFound), trace, chain),
    }
}

} // verus!
