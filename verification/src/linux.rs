//! The Linux fallback chain: AMD first, then Nvidia, then the
//! unimplemented Intel slot.

use vstd::prelude::*;

use crate::resolve::{
    Adapter, AdapterKind, AmdSource, Attempt, AttemptOutcome, GpuHandle, IntelSource,
    NvidiaSource, resolve,
};
use crate::{Gpu, GpuError};

verus! {

/// The chain's slot kinds, in declared priority order.
pub open spec fn chain_kind(i: int) -> AdapterKind {
    if i == 0 {
        AdapterKind::Amd
    } else if i == 1 {
        AdapterKind::Nvidia
    } else {
        AdapterKind::Intel
    }
}

/// Resolve the active GPU through the Linux chain, with the trace of the
/// probes actually made as an auxiliary output.  The AMD slot needs the
/// render node's file descriptor, opened by the frontend; `None` stands
/// for "no node to open", which that slot reports as a miss.
///
/// The trace holds one record per probe, in declared priority order.
/// The first adapter whose identity probe succeeds supplies the handle
/// and ends the chain; when the result is the one uniform `NoGpuFound`
/// error, the trace shows that every configured adapter was attempted
/// exactly once, in order, and that none succeeded.
pub fn active_gpu_with_trace(amd_fd: Option<i32>) -> (r: (
    Result<GpuHandle, GpuError>,
    Vec<Attempt>,
))
    ensures
        r.1@.len() <= 3,
        forall|i: int| 0 <= i < r.1@.len() ==> (#[trigger] r.1@[i]).kind == chain_kind(i),
        r.0 matches Ok(h) ==> ({
            &&& (h matches GpuHandle::Amd(g) && g.desc().vendor == "AMD"@) || (
            h matches GpuHandle::Nvidia(g) && g.desc().vendor == "Nvidia"@)
            &&& r.1@.len() >= 1
            &&& r.1@.last().outcome == AttemptOutcome::Found
            &&& forall|i: int|
                0 <= i < r.1@.len() - 1 ==> (#[trigger] r.1@[i]).outcome != AttemptOutcome::Found
        }),
        r.0 matches Err(e) ==> ({
            &&& e == GpuError::NoGpuFound
            &&& r.1@.len() == 3
            &&& forall|i: int|
                0 <= i < r.1@.len() ==> (#[trigger] r.1@[i]).outcome != AttemptOutcome::Found
        }),
{
    let mut adapters: Vec<Adapter> = Vec::new();
    adapters.push(Adapter::Amd(AmdSource { fd: amd_fd }));
    adapters.push(Adapter::Nvidia(NvidiaSource {}));
    adapters.push(Adapter::Intel(IntelSource {}));
    proof {
        assert(adapters@[0].kind() == AdapterKind::Amd);
        assert(adapters@[1].kind() == AdapterKind::Nvidia);
        assert(adapters@[2].kind() == AdapterKind::Intel);
    }
    let (res, trace, _chain) = resolve(adapters);
    proof {
        assert forall|i: int| 0 <= i < trace@.len() implies trace@[i].kind == chain_kind(i) by {
            if i == 0 {
            } else if i == 1 {
            } else {
                assert(i == 2);
            }
        }
    }
    (res, trace)
}

/// Resolve the active GPU through the Linux chain, collapsing the trace.
/// See [`active_gpu_with_trace`].
pub fn active_gpu(amd_fd: Option<i32>) -> (r: Result<GpuHandle, GpuError>)
    ensures
        r matches Ok(h) ==> (h matches GpuHandle::Amd(g) && g.desc().vendor == "AMD"@) || (
        h matches GpuHandle::Nvidia(g) && g.desc().vendor == "Nvidia"@),
        r matches Err(e) ==> e == GpuError::NoGpuFound,
{
    let (res, _trace) = active_gpu_with_trace(amd_fd);
    res
}

} // verus!
