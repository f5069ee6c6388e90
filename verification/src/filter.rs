//! Self-exclusion: keeping the agent and the container runtime out of
//! their own traces.
//!
//! Two independent guards protect the syscall probes. The first matches
//! the current command name against the infrastructure set (the agent
//! itself, docker, dockerd, and the containerd family). The second is
//! a small pid table populated at startup with the agent's own pid, so
//! that the logging pipeline cannot cause event recursion when the log
//! sink is itself a socket. Reads and writes on stdio descriptors are
//! dropped as well.

use std::collections::HashMap;
use vstd::prelude::*;

verus! {

broadcast use vstd::std_specs::hash::group_hash_axioms;

/// Holds when the 16-byte command name starts with `masdeepflow`,
/// the agent's own process name.
pub open spec fn comm_is_agent(s: Seq<u8>) -> bool {
    &&& s.len() == 16
    &&& s[0] == 0x6d
    &&& s[1] == 0x61
    &&& s[2] == 0x73
    &&& s[3] == 0x64
    &&& s[4] == 0x65
    &&& s[5] == 0x65
    &&& s[6] == 0x70
    &&& s[7] == 0x66
    &&& s[8] == 0x6c
    &&& s[9] == 0x6f
    &&& s[10] == 0x77
}

/// Holds when the command name is exactly `docker` or exactly `dockerd`.
pub open spec fn comm_is_docker(s: Seq<u8>) -> bool {
    &&& s.len() == 16
    &&& s[0] == 0x64
    &&& s[1] == 0x6f
    &&& s[2] == 0x63
    &&& s[3] == 0x6b
    &&& s[4] == 0x65
    &&& s[5] == 0x72
    &&& (s[6] == 0 || (s[6] == 0x64 && s[7] == 0))
}

/// Holds when the command name starts with `containerd`, which covers
/// `containerd` itself and every variant such as `containerd-shim`.
pub open spec fn comm_is_containerd(s: Seq<u8>) -> bool {
    &&& s.len() == 16
    &&& s[0] == 0x63
    &&& s[1] == 0x6f
    &&& s[2] == 0x6e
    &&& s[3] == 0x74
    &&& s[4] == 0x61
    &&& s[5] == 0x69
    &&& s[6] == 0x6e
    &&& s[7] == 0x65
    &&& s[8] == 0x72
    &&& s[9] == 0x64
}

/// Holds when the command name belongs to the observation infrastructure
/// and must never produce events.
pub open spec fn comm_is_infra(s: Seq<u8>) -> bool {
    comm_is_agent(s) || comm_is_docker(s) || comm_is_containerd(s)
}

/// Decides in constant time whether the command name belongs to the
/// observation infrastructure: the agent itself, exactly `docker` or
/// `dockerd`, or any name starting with `containerd` (which covers the
/// `containerd-shim` family).
pub fn is_infra_process(comm: &[u8; 16]) -> (r: bool)
    ensures
        r == comm_is_infra(comm@),
{
    let c0 = comm[0];
    if c0 == 0x6d {
        return comm[1] == 0x61 && comm[2] == 0x73 && comm[3] == 0x64 && comm[4] == 0x65
            && comm[5] == 0x65 && comm[6] == 0x70 && comm[7] == 0x66 && comm[8] == 0x6c
            && comm[9] == 0x6f && comm[10] == 0x77;
    }
    if c0 == 0x64 {
        if !(comm[1] == 0x6f && comm[2] == 0x63 && comm[3] == 0x6b && comm[4] == 0x65
            && comm[5] == 0x72) {
            return false;
        }
        if comm[6] == 0 {
            return true;
        }
        return comm[6] == 0x64 && comm[7] == 0;
    }
    if c0 == 0x63 {
        return comm[1] == 0x6f && comm[2] == 0x6e && comm[3] == 0x74 && comm[4] == 0x61
            && comm[5] == 0x69 && comm[6] == 0x6e && comm[7] == 0x65 && comm[8] == 0x72
            && comm[9] == 0x64;
    }
    false
}

/// Most entries the pid allow-skip table can hold; a further insertion is
/// dropped silently and the affected events stay best-effort.
pub const FILTER_PID_CAP: usize = 16;

/// The pid allow-skip table: pids listed here (the agent's own, at
/// startup) never produce events.
pub struct FilterPidTable {
    pids: HashMap<u32, u8>,
}

impl FilterPidTable {
    /// The set of pids whose events are dropped.
    pub closed spec fn view(&self) -> Set<u32> {
        self.pids@.dom()
    }

    /// Creates an empty table.
    pub fn new() -> (r: Self)
        ensures
            r@ == Set::<u32>::empty(),
    {
        FilterPidTable { pids: HashMap::new() }
    }

    /// Registers a pid for exclusion. With the table at capacity the
    /// insertion is dropped silently, as a full kernel map drops it.
    pub fn register(&mut self, pid: u32)
        ensures
            old(self)@.len() < FILTER_PID_CAP || old(self)@.contains(pid) ==> final(self)@
                == old(self)@.insert(pid),
            !(old(self)@.len() < FILTER_PID_CAP || old(self)@.contains(pid)) ==> final(self)@
                == old(self)@,
    {
        if self.pids.len() < FILTER_PID_CAP || self.pids.contains_key(&pid) {
            self.pids.insert(pid, 1);
            proof {
                assert(self.pids@.dom() =~= old(self).pids@.dom().insert(pid));
            }
        }
    }

    /// Reports whether a pid is excluded.
    pub fn contains(&self, pid: u32) -> (r: bool)
        ensures
            r == self@.contains(pid),
    {
        self.pids.contains_key(&pid)
    }
}

/// Holds when an event from the observed process must be suppressed by
/// the self-exclusion guards: the command name matches an
/// infrastructure prefix or the pid stands in the allow-skip table.
pub open spec fn excluded(comm: Seq<u8>, pids: Set<u32>, pid: u32) -> bool {
    comm_is_infra(comm) || pids.contains(pid)
}

} // verus!
