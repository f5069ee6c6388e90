//! Enter/exit pairing for read-style syscalls.
//!
//! The payload of `read` and `recvfrom` exists only after the syscall
//! returns, while the buffer pointer is visible only at entry. The enter
//! probe therefore parks `(buf_ptr, fd)` keyed by pid, and the exit probe
//! takes the entry back out — on every path, success or failure, so the
//! map cannot leak. A next enter from the same pid overwrites an orphan
//! left by an exit probe that never fired.

use std::collections::HashMap;
use vstd::prelude::*;

verus! {

broadcast use vstd::std_specs::hash::group_hash_axioms;

/// What the enter probe parks for the matching exit probe: the user-space
/// buffer pointer and the descriptor being read.
#[derive(Clone, Copy)]
pub struct ReadInfo {
    /// Address of the caller's buffer; filled by the kernel at exit time.
    pub buf_ptr: u64,
    /// Descriptor the read-style syscall was issued on.
    pub fd: u32,
}

/// Most in-flight read-style syscalls the pairing map can hold; an
/// insertion beyond that is dropped silently and the read goes
/// unobserved.
pub const READ_PAIRING_CAP: usize = 1024;

/// The pairing map itself: at most one parked entry per pid, because the
/// pid is the key.
pub struct ReadPairing {
    entries: HashMap<u32, ReadInfo>,
}

impl ReadPairing {
    /// The parked entries, one per pid at most.
    pub closed spec fn view(&self) -> Map<u32, ReadInfo> {
        self.entries@
    }

    /// Creates an empty pairing map.
    pub fn new() -> (r: Self)
        ensures
            r@ == Map::<u32, ReadInfo>::empty(),
    {
        ReadPairing { entries: HashMap::new() }
    }

    /// Parks an entry for a pid, overwriting any orphan from an exit
    /// probe that never fired. With the map at capacity the insertion is
    /// dropped silently.
    pub fn park(&mut self, pid: u32, info: ReadInfo) -> (stored: bool)
        ensures
            stored == (old(self)@.len() < READ_PAIRING_CAP || old(self)@.contains_key(pid)),
            stored ==> final(self)@ == old(self)@.insert(pid, info),
            !stored ==> final(self)@ == old(self)@,
    {
        if self.entries.len() < READ_PAIRING_CAP || self.entries.contains_key(&pid) {
            self.entries.insert(pid, info);
            true
        } else {
            false
        }
    }

    /// Takes the entry parked for a pid back out, removing it whatever
    /// the syscall's outcome was.
    pub fn take(&mut self, pid: u32) -> (r: Option<ReadInfo>)
        ensures
            final(self)@ == old(self)@.remove(pid),
            !final(self)@.contains_key(pid),
            match r {
                Some(info) => old(self)@.contains_key(pid) && info == old(self)@[pid],
                None => !old(self)@.contains_key(pid),
            },
    {
        self.entries.remove(&pid)
    }

    /// Reports whether a pid has a parked entry.
    pub fn contains(&self, pid: u32) -> (r: bool)
        ensures
            r == self@.contains_key(pid),
    {
        self.entries.contains_key(&pid)
    }

    /// Number of parked entries.
    pub fn len(&self) -> (r: usize)
        ensures
            r == self@.len(),
    {
        self.entries.len()
    }
}

/// Pairing leak-freedom: however a pid's enter and exit interleave with
/// the rest of the map, an enter followed by the matching exit leaves the
/// map exactly as if the pid had never appeared, and the map never holds
/// more than the one keyed entry for that pid in between.
pub proof fn lemma_pairing_leak_free(m: Map<u32, ReadInfo>, pid: u32, info: ReadInfo)
    ensures
        m.insert(pid, info).remove(pid) == m.remove(pid),
        m.insert(pid, info)[pid] == info,
        forall|p: u32| p != pid ==> m.insert(pid, info).contains_key(p) == m.contains_key(p),
{
    assert(m.insert(pid, info).remove(pid) =~= m.remove(pid));
}

} // verus!
