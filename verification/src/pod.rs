//! The stand-in Pod resolver: maps a cgroup id to a Pod name.
//!
//! The real resolution table is an external collaborator keyed by
//! cgroup id; this resolver partitions the id space into the fixed
//! names the emitter prints.

use vstd::prelude::*;

verus! {

/// Resolves a cgroup id to the Pod name the emitter prints, by the
/// residue of the id.
pub fn resolve_pod(cgroup_id: u64) -> (r: &'static str)
    ensures
        cgroup_id % 3 == 0 ==> r@ == "frontend-pod-1"@,
        cgroup_id % 3 == 1 ==> r@ == "backend-service-2"@,
        cgroup_id % 3 == 2 ==> r@ == "unknown-pod"@,
{
    let m = cgroup_id % 3;
    if m == 0 {
        "frontend-pod-1"
    } else if m == 1 {
        "backend-service-2"
    } else {
        "unknown-pod"
    }
}

} // verus!
