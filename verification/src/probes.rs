//! Decision logic of the kernel observation points.
//!
//! Each in-kernel hook reads raw values (syscall arguments, socket
//! fields, captured buffer prefixes) and then decides: emit a record, or
//! stay silent. The reads cannot leave the kernel, but the decisions can,
//! and they live here as pure functions from those raw values to the
//! record emitted, if any. Every function that can produce a `TcpEvent`
//! is gated by the self-exclusion guards: an excluded task never emits.

use crate::events::{
    ProcessEvent, TcpEvent, AF_INET, DIR_ACCEPT, DIR_CONNECT, DIR_IP_INFO, DIR_RX, DIR_TX,
};
use crate::filter::{excluded, is_infra_process, FilterPidTable};
use crate::pairing::{ReadInfo, ReadPairing};
use vstd::array::ArrayAdditionalExecFns;
use vstd::prelude::*;

verus! {

/// An all-zero payload field, for records that carry no payload.
pub open spec fn spec_zero_payload() -> Seq<u8> {
    Seq::new(128, |i: int| 0u8)
}

/// The payload field holding a captured prefix: the captured bytes
/// first, zero-padded to the fixed record width.
pub open spec fn spec_payload_pad(captured: Seq<u8>) -> Seq<u8> {
    Seq::new(128, |i: int| if i < captured.len() { captured[i] } else { 0u8 })
}

fn zero_payload() -> (r: [u8; 128])
    ensures
        r@ == spec_zero_payload(),
{
    let r = [0u8; 128];
    proof {
        assert(r@ =~= spec_zero_payload());
    }
    r
}

fn fill_payload(captured: &[u8]) -> (r: [u8; 128])
    requires
        captured@.len() <= 128,
    ensures
        r@ == spec_payload_pad(captured@),
{
    let mut r = [0u8; 128];
    let mut i: usize = 0;
    while i < captured.len()
        invariant
            i <= captured@.len() <= 128,
            r@.len() == 128,
            forall|j: int| 0 <= j < i ==> r@[j] == captured@[j],
            forall|j: int| i <= j < 128 ==> r@[j] == 0u8,
        decreases captured@.len() - i,
    {
        r.set(i, captured[i]);
        i = i + 1;
    }
    proof {
        assert(r@ =~= spec_payload_pad(captured@));
    }
    r
}

/// Process execution: emitted unconditionally for every exec, with the
/// new task's pid, cgroup id and command name.
pub fn exec_event(pid: u32, cgroup_id: u64, comm: [u8; 16]) -> (r: ProcessEvent)
    ensures
        r.pid == pid,
        r.cgroup_id == cgroup_id,
        r.comm@ == comm@,
{
    ProcessEvent { pid, cgroup_id, comm }
}

/// Connect syscall entry: the only point where the descriptor and the
/// destination address are visible together. Emits a CONNECT record for
/// an IPv4 sockaddr of sufficient length; source address and port are
/// not assigned yet and stay zero. `dport` and `daddr` arrive as read
/// from the user-space sockaddr, in network byte order.
pub fn connect_enter_event(
    pid: u32,
    cgroup_id: u64,
    comm: &[u8; 16],
    pids: &FilterPidTable,
    fd: u64,
    addr_len: u64,
    sin_family: u16,
    dport: u16,
    daddr: u32,
) -> (r: Option<TcpEvent>)
    ensures
        excluded(comm@, pids@, pid) ==> r is None,
        !excluded(comm@, pids@, pid) && (addr_len < 16 || sin_family != AF_INET) ==> r is None,
        !excluded(comm@, pids@, pid) && addr_len >= 16 && sin_family == AF_INET ==> ({
            &&& r is Some
            &&& r->Some_0.pid == pid
            &&& r->Some_0.fd == fd as u32
            &&& r->Some_0.cgroup_id == cgroup_id
            &&& r->Some_0.saddr == 0
            &&& r->Some_0.daddr == daddr
            &&& r->Some_0.sport == 0
            &&& r->Some_0.dport == dport
            &&& r->Some_0.family == AF_INET
            &&& r->Some_0.direction == DIR_CONNECT
            &&& r->Some_0.data_len == 0
            &&& r->Some_0.payload@ == spec_zero_payload()
        }),
{
    if is_infra_process(comm) || pids.contains(pid) {
        return None;
    }
    if addr_len < 16 || sin_family != AF_INET {
        return None;
    }
    Some(
        TcpEvent {
            pid,
            fd: fd as u32,
            cgroup_id,
            saddr: 0,
            daddr,
            sport: 0,
            dport,
            family: AF_INET,
            direction: DIR_CONNECT,
            data_len: 0,
            payload: zero_payload(),
        },
    )
}

/// TCP connect detail, at SYN emission time: the kernel has assigned the
/// source address and port by now, read from the socket structure in
/// network byte order. The descriptor is not visible here and stays 0;
/// the destination is speculative and the correlator keeps the one from
/// the CONNECT record.
pub fn ip_info_event(
    pid: u32,
    cgroup_id: u64,
    comm: &[u8; 16],
    pids: &FilterPidTable,
    saddr: u32,
    sport: u16,
    daddr: u32,
) -> (r: Option<TcpEvent>)
    ensures
        excluded(comm@, pids@, pid) ==> r is None,
        !excluded(comm@, pids@, pid) ==> ({
            &&& r is Some
            &&& r->Some_0.pid == pid
            &&& r->Some_0.fd == 0
            &&& r->Some_0.cgroup_id == cgroup_id
            &&& r->Some_0.saddr == saddr
            &&& r->Some_0.daddr == daddr
            &&& r->Some_0.sport == sport
            &&& r->Some_0.dport == 0
            &&& r->Some_0.family == AF_INET
            &&& r->Some_0.direction == DIR_IP_INFO
            &&& r->Some_0.data_len == 0
            &&& r->Some_0.payload@ == spec_zero_payload()
        }),
{
    if is_infra_process(comm) || pids.contains(pid) {
        return None;
    }
    Some(
        TcpEvent {
            pid,
            fd: 0,
            cgroup_id,
            saddr,
            daddr,
            sport,
            dport: 0,
            family: AF_INET,
            direction: DIR_IP_INFO,
            data_len: 0,
            payload: zero_payload(),
        },
    )
}

/// Accept return, for a non-null accepted socket: the new socket carries
/// the complete four-tuple, read in network byte order. The user-space
/// descriptor of the accepted socket is not visible here and stays 0.
pub fn accept_event(
    pid: u32,
    cgroup_id: u64,
    comm: &[u8; 16],
    pids: &FilterPidTable,
    saddr: u32,
    daddr: u32,
    sport: u16,
    dport: u16,
) -> (r: Option<TcpEvent>)
    ensures
        excluded(comm@, pids@, pid) ==> r is None,
        !excluded(comm@, pids@, pid) ==> ({
            &&& r is Some
            &&& r->Some_0.pid == pid
            &&& r->Some_0.fd == 0
            &&& r->Some_0.cgroup_id == cgroup_id
            &&& r->Some_0.saddr == saddr
            &&& r->Some_0.daddr == daddr
            &&& r->Some_0.sport == sport
            &&& r->Some_0.dport == dport
            &&& r->Some_0.family == AF_INET
            &&& r->Some_0.direction == DIR_ACCEPT
            &&& r->Some_0.data_len == 0
            &&& r->Some_0.payload@ == spec_zero_payload()
        }),
{
    if is_infra_process(comm) || pids.contains(pid) {
        return None;
    }
    Some(
        TcpEvent {
            pid,
            fd: 0,
            cgroup_id,
            saddr,
            daddr,
            sport,
            dport,
            family: AF_INET,
            direction: DIR_ACCEPT,
            data_len: 0,
            payload: zero_payload(),
        },
    )
}

/// Write-style syscall entry (`write` and `sendto` alike): after the
/// self-exclusion guards and the stdio filter, emits a TX record whose
/// payload holds the captured buffer prefix and whose `data_len` is the
/// requested count, not the captured length. Addresses are unknown at
/// this hook and stay zero; the correlator substitutes them.
pub fn tx_enter_event(
    pid: u32,
    cgroup_id: u64,
    comm: &[u8; 16],
    pids: &FilterPidTable,
    fd: u64,
    count: u64,
    captured: &[u8],
) -> (r: Option<TcpEvent>)
    requires
        captured@.len() <= 128,
    ensures
        excluded(comm@, pids@, pid) ==> r is None,
        fd <= 2 ==> r is None,
        !excluded(comm@, pids@, pid) && fd > 2 ==> ({
            &&& r is Some
            &&& r->Some_0.pid == pid
            &&& r->Some_0.fd == fd as u32
            &&& r->Some_0.cgroup_id == cgroup_id
            &&& r->Some_0.saddr == 0
            &&& r->Some_0.daddr == 0
            &&& r->Some_0.sport == 0
            &&& r->Some_0.dport == 0
            &&& r->Some_0.family == AF_INET
            &&& r->Some_0.direction == DIR_TX
            &&& r->Some_0.data_len == count as u32
            &&& r->Some_0.payload@ == spec_payload_pad(captured@)
        }),
{
    if is_infra_process(comm) || pids.contains(pid) {
        return None;
    }
    if fd <= 2 {
        return None;
    }
    Some(
        TcpEvent {
            pid,
            fd: fd as u32,
            cgroup_id,
            saddr: 0,
            daddr: 0,
            sport: 0,
            dport: 0,
            family: AF_INET,
            direction: DIR_TX,
            data_len: count as u32,
            payload: fill_payload(captured),
        },
    )
}

/// Read-style syscall entry (`read` and `recvfrom` alike): the buffer is
/// still empty here, so nothing is emitted; instead the buffer pointer
/// and descriptor are parked in the pairing map for the exit probe. An
/// excluded task, a stdio descriptor or a null buffer parks nothing, so
/// the matching exit finds nothing and stays silent too.
pub fn read_enter_update(
    pairing: &mut ReadPairing,
    pid: u32,
    comm: &[u8; 16],
    pids: &FilterPidTable,
    fd: u64,
    buf_ptr: u64,
)
    ensures
        excluded(comm@, pids@, pid) || fd <= 2 || buf_ptr == 0 ==> final(pairing)@ == old(
            pairing,
        )@,
        !(excluded(comm@, pids@, pid) || fd <= 2 || buf_ptr == 0) ==> ({
            let room = old(pairing)@.len() < crate::pairing::READ_PAIRING_CAP || old(
                pairing,
            )@.contains_key(pid);
            &&& room ==> final(pairing)@ == old(pairing)@.insert(
                pid,
                ReadInfo { buf_ptr, fd: fd as u32 },
            )
            &&& !room ==> final(pairing)@ == old(pairing)@
        }),
{
    if is_infra_process(comm) || pids.contains(pid) {
        return ;
    }
    if fd <= 2 || buf_ptr == 0 {
        return ;
    }
    pairing.park(pid, ReadInfo { buf_ptr, fd: fd as u32 });
}

/// Read-style syscall exit, after the parked entry was taken back out of
/// the pairing map and the now-populated buffer prefix was captured: a
/// non-positive return value is ignored, otherwise an RX record carries
/// the captured prefix with `data_len` set to the return value.
pub fn read_exit_event(pid: u32, cgroup_id: u64, fd: u32, ret: i64, captured: &[u8]) -> (r: Option<
    TcpEvent,
>)
    requires
        captured@.len() <= 128,
    ensures
        ret <= 0 ==> r is None,
        ret > 0 ==> ({
            &&& r is Some
            &&& r->Some_0.pid == pid
            &&& r->Some_0.fd == fd
            &&& r->Some_0.cgroup_id == cgroup_id
            &&& r->Some_0.saddr == 0
            &&& r->Some_0.daddr == 0
            &&& r->Some_0.sport == 0
            &&& r->Some_0.dport == 0
            &&& r->Some_0.family == AF_INET
            &&& r->Some_0.direction == DIR_RX
            &&& r->Some_0.data_len == ret as u32
            &&& r->Some_0.payload@ == spec_payload_pad(captured@)
        }),
{
    if ret <= 0 {
        return None;
    }
    Some(
        TcpEvent {
            pid,
            fd,
            cgroup_id,
            saddr: 0,
            daddr: 0,
            sport: 0,
            dport: 0,
            family: AF_INET,
            direction: DIR_RX,
            data_len: ret as u32,
            payload: fill_payload(captured),
        },
    )
}


/// What the L7 parser sees of a TX or RX record is exactly the captured
/// prefix: clipping the zero-padded payload field back to the reported
/// length recovers the captured bytes, whenever the report counts no
/// more than the capture window holds.
pub proof fn lemma_parser_sees_captured_prefix(captured: Seq<u8>, count: u32)
    requires
        captured.len() == count,
        count <= 128,
    ensures
        crate::l7::spec_payload_slice(spec_payload_pad(captured), count) == captured,
{
    assert(crate::l7::spec_payload_slice(spec_payload_pad(captured), count) =~= captured);
}

} // verus!
