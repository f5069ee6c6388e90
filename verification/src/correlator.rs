//! The user-space correlator: assembling five-tuples from fragmentary
//! kernel events, tracking request/response latency, and deciding what
//! the emitter prints.
//!
//! TX and RX records name only `(cgroup_id, fd)`, because write and read
//! syscalls carry no address. The five-tuple is assembled from CONNECT
//! (descriptor plus destination) joined with IP_INFO (source, no
//! descriptor) through a short-lived pid-keyed link, or taken complete
//! from ACCEPT. Each step of the correlator is one event in, one state
//! transition, and at most one record out; the transition itself is the
//! specification (`spec_step`, `spec_step_emit`) and the executable
//! correlator is proved to implement it.

use crate::events::{TcpEvent, DIR_ACCEPT, DIR_CONNECT, DIR_IP_INFO, DIR_RX, DIR_TX};
use crate::l7::{
    l7_scan, spec_closes_session, spec_l7_noisy, spec_l7_scan, spec_opens_session, L7, L7Spec,
};
use crate::netorder::{spec_swap16, spec_swap32, swap16, swap32};
use std::collections::HashMap;
use vstd::prelude::*;

verus! {

broadcast use vstd::std_specs::hash::group_hash_axioms;

/// A connection's four-tuple as the correlator stores it: addresses and
/// ports in host byte order, populated incrementally.
#[derive(Clone, Copy, PartialEq, Eq, Structural, Debug)]
pub struct ConnectionInfo {
    /// Source IPv4 address, host order; 0 until IP_INFO arrives.
    pub saddr: u32,
    /// Destination IPv4 address, host order.
    pub daddr: u32,
    /// Source port, host order; 0 until IP_INFO arrives.
    pub sport: u16,
    /// Destination port, host order.
    pub dport: u16,
}

/// The session key `(cgroup_id, fd)` packed into one map key: the
/// user-space identity of a live connection within one Pod.
pub open spec fn spec_session_key(cgroup_id: u64, fd: u32) -> u128 {
    ((cgroup_id as u128) << 32) | (fd as u128)
}

/// Packs a session key; two distinct `(cgroup_id, fd)` pairs never
/// collide.
pub fn session_key(cgroup_id: u64, fd: u32) -> (r: u128)
    ensures
        r == spec_session_key(cgroup_id, fd),
{
    ((cgroup_id as u128) << 32) | (fd as u128)
}

/// Session keys are injective in both fields.
pub proof fn lemma_session_key_injective(c1: u64, f1: u32, c2: u64, f2: u32)
    requires
        spec_session_key(c1, f1) == spec_session_key(c2, f2),
    ensures
        c1 == c2 && f1 == f2,
{
    assert(((c1 as u128) << 32) | (f1 as u128) == ((c2 as u128) << 32) | (f2 as u128) ==> c1 == c2
        && f1 == f2) by (bit_vector);
}

/// The correlator's whole state, at the specification level.
pub struct CorrView {
    /// Live connections: packed session key to four-tuple.
    pub connections: Map<u128, ConnectionInfo>,
    /// The short-lived link from a pid's CONNECT to its IP_INFO.
    pub pending: Map<u32, u128>,
    /// Open request/response sessions: packed session key to the
    /// request's timestamp in milliseconds.
    pub sessions: Map<u128, u64>,
}

/// An event's own address fields, converted to host order.
pub open spec fn spec_event_tuple(ev: TcpEvent) -> ConnectionInfo {
    ConnectionInfo {
        saddr: spec_swap32(ev.saddr),
        daddr: spec_swap32(ev.daddr),
        sport: spec_swap16(ev.sport),
        dport: spec_swap16(ev.dport),
    }
}

/// The tuple an event is reported with: TX and RX take the stored
/// connection tuple when one exists, every other case keeps the event's
/// own fields.
pub open spec fn spec_substituted(v: CorrView, ev: TcpEvent) -> ConnectionInfo {
    let k = spec_session_key(ev.cgroup_id, ev.fd);
    if (ev.direction == DIR_TX || ev.direction == DIR_RX) && v.connections.contains_key(k) {
        v.connections[k]
    } else {
        spec_event_tuple(ev)
    }
}

/// How one event changes the connection table: CONNECT and ACCEPT
/// insert (CONNECT with source still zero), IP_INFO fills in source
/// address and port of the connection its pid is linked to, TX and RX
/// only read.
pub open spec fn spec_step_connections(v: CorrView, ev: TcpEvent) -> Map<u128, ConnectionInfo> {
    let k = spec_session_key(ev.cgroup_id, ev.fd);
    if ev.direction == DIR_CONNECT || ev.direction == DIR_ACCEPT {
        v.connections.insert(k, spec_event_tuple(ev))
    } else if ev.direction == DIR_IP_INFO && v.pending.contains_key(ev.pid)
        && v.connections.contains_key(v.pending[ev.pid]) {
        let pk = v.pending[ev.pid];
        let stored = v.connections[pk];
        v.connections.insert(
            pk,
            ConnectionInfo {
                saddr: spec_swap32(ev.saddr),
                daddr: stored.daddr,
                sport: spec_swap16(ev.sport),
                dport: stored.dport,
            },
        )
    } else {
        v.connections
    }
}

/// How one event changes the pending-connect link: CONNECT binds the
/// pid to its session key, overwriting a stale link; nothing else
/// touches it.
pub open spec fn spec_step_pending(v: CorrView, ev: TcpEvent) -> Map<u32, u128> {
    if ev.direction == DIR_CONNECT {
        v.pending.insert(ev.pid, spec_session_key(ev.cgroup_id, ev.fd))
    } else {
        v.pending
    }
}

/// The L7 scan of one event, on the substituted ports.
pub open spec fn spec_step_scan(v: CorrView, ev: TcpEvent) -> Option<L7Spec> {
    let t = spec_substituted(v, ev);
    spec_l7_scan(ev.payload@, ev.data_len, t.sport, t.dport, ev.direction)
}

/// The event is container-runtime noise, judged on the same substituted
/// ports.
pub open spec fn spec_step_noisy(v: CorrView, ev: TcpEvent) -> bool {
    let t = spec_substituted(v, ev);
    spec_l7_noisy(ev.payload@, ev.data_len, t.sport, t.dport, ev.direction)
}

/// How one event changes the latency table: a request head opens the
/// session at the current instant, a response head closes it, anything
/// else leaves it alone.
pub open spec fn spec_step_sessions(v: CorrView, ev: TcpEvent, now_ms: u64) -> Map<u128, u64> {
    let k = spec_session_key(ev.cgroup_id, ev.fd);
    match spec_step_scan(v, ev) {
        Some(l) => if spec_opens_session(l) {
            v.sessions.insert(k, now_ms)
        } else {
            v.sessions.remove(k)
        },
        None => v.sessions,
    }
}

/// The latency reported with one event: the wall-clock delta between a
/// response head and the open session it closes; nothing otherwise. A
/// response without a matching request yields no latency.
pub open spec fn spec_step_latency(v: CorrView, ev: TcpEvent, now_ms: u64) -> Option<u64> {
    let k = spec_session_key(ev.cgroup_id, ev.fd);
    match spec_step_scan(v, ev) {
        Some(l) => if spec_closes_session(l) && v.sessions.contains_key(k) {
            if now_ms >= v.sessions[k] {
                Some((now_ms - v.sessions[k]) as u64)
            } else {
                Some(0u64)
            }
        } else {
            None
        },
        None => None,
    }
}

/// One whole correlator transition.
pub open spec fn spec_step(v: CorrView, ev: TcpEvent, now_ms: u64) -> CorrView {
    CorrView {
        connections: spec_step_connections(v, ev),
        pending: spec_step_pending(v, ev),
        sessions: spec_step_sessions(v, ev, now_ms),
    }
}

/// What the emitter prints for one event, at the specification level.
pub struct EmitSpec {
    /// The event's direction tag.
    pub direction: u8,
    /// Emitting process.
    pub pid: u32,
    /// Cgroup id, for the external Pod resolver.
    pub cgroup_id: u64,
    /// Source IPv4 address, host order, after substitution.
    pub saddr: u32,
    /// Destination IPv4 address, host order, after substitution.
    pub daddr: u32,
    /// Source port, host order, after substitution.
    pub sport: u16,
    /// Destination port, host order, after substitution.
    pub dport: u16,
    /// The recognized L7 head, if any.
    pub l7: Option<L7Spec>,
    /// Request/response latency in milliseconds, when a response closed
    /// an open session.
    pub latency_ms: Option<u64>,
}

/// A record the emitter prints: only handshakes and events with
/// recognized L7 content ever reach it.
#[derive(Clone, Debug, PartialEq, Eq)]
pub struct EmitRecord {
    /// The event's direction tag.
    pub direction: u8,
    /// Emitting process.
    pub pid: u32,
    /// Cgroup id, for the external Pod resolver.
    pub cgroup_id: u64,
    /// Source IPv4 address, host order, after substitution.
    pub saddr: u32,
    /// Destination IPv4 address, host order, after substitution.
    pub daddr: u32,
    /// Source port, host order, after substitution.
    pub sport: u16,
    /// Destination port, host order, after substitution.
    pub dport: u16,
    /// The recognized L7 head, if any.
    pub l7: Option<L7>,
    /// Request/response latency in milliseconds, when a response closed
    /// an open session.
    pub latency_ms: Option<u64>,
}

impl View for EmitRecord {
    type V = EmitSpec;

    open spec fn view(&self) -> EmitSpec {
        EmitSpec {
            direction: self.direction,
            pid: self.pid,
            cgroup_id: self.cgroup_id,
            saddr: self.saddr,
            daddr: self.daddr,
            sport: self.sport,
            dport: self.dport,
            l7: match self.l7 {
                Some(l) => Some(l@),
                None => None,
            },
            latency_ms: self.latency_ms,
        }
    }
}

/// The logging policy: noise is dropped; of the rest, handshakes
/// (CONNECT, ACCEPT) and events carrying a recognized L7 head are
/// emitted, pure TX/RX without L7 content is suppressed.
pub open spec fn spec_step_emit(v: CorrView, ev: TcpEvent, now_ms: u64) -> Option<EmitSpec> {
    if spec_step_noisy(v, ev) {
        None
    } else if ev.direction == DIR_CONNECT || ev.direction == DIR_ACCEPT || spec_step_scan(
        v,
        ev,
    ) is Some {
        let t = spec_substituted(v, ev);
        Some(
            EmitSpec {
                direction: ev.direction,
                pid: ev.pid,
                cgroup_id: ev.cgroup_id,
                saddr: t.saddr,
                daddr: t.daddr,
                sport: t.sport,
                dport: t.dport,
                l7: spec_step_scan(v, ev),
                latency_ms: spec_step_latency(v, ev, now_ms),
            },
        )
    } else {
        None
    }
}

fn l7_opens(l: &L7) -> (r: bool)
    ensures
        r == spec_opens_session(l@),
{
    match l {
        L7::MysqlQuery(_) => true,
        L7::HttpRequest(_) => true,
        _ => false,
    }
}

/// The correlator state: two correlation maps and the latency table.
/// The async dispatcher guards it with a mutex; every critical section
/// is one `handle_event` call.
pub struct Correlator {
    connections: HashMap<u128, ConnectionInfo>,
    pending: HashMap<u32, u128>,
    sessions: HashMap<u128, u64>,
}

impl Correlator {
    /// The correlator's state as maps.
    pub closed spec fn view(&self) -> CorrView {
        CorrView { connections: self.connections@, pending: self.pending@, sessions: self.sessions@ }
    }

    /// Creates an empty correlator.
    pub fn new() -> (r: Self)
        ensures
            r@.connections == Map::<u128, ConnectionInfo>::empty(),
            r@.pending == Map::<u32, u128>::empty(),
            r@.sessions == Map::<u128, u64>::empty(),
    {
        Correlator {
            connections: HashMap::new(),
            pending: HashMap::new(),
            sessions: HashMap::new(),
        }
    }

    /// Processes one event: performs exactly the `spec_step` transition
    /// and returns exactly the `spec_step_emit` record. `now_ms` is the
    /// caller's clock reading in milliseconds.
    pub fn handle_event(&mut self, ev: &TcpEvent, now_ms: u64) -> (r: Option<EmitRecord>)
        ensures
            final(self)@ == spec_step(old(self)@, *ev, now_ms),
            match r {
                Some(rec) => spec_step_emit(old(self)@, *ev, now_ms) == Some(rec@),
                None => spec_step_emit(old(self)@, *ev, now_ms) is None,
            },
    {
        let key = session_key(ev.cgroup_id, ev.fd);
        let mut tuple = ConnectionInfo {
            saddr: swap32(ev.saddr),
            daddr: swap32(ev.daddr),
            sport: swap16(ev.sport),
            dport: swap16(ev.dport),
        };
        if ev.direction == DIR_CONNECT {
            self.connections.insert(key, tuple);
            self.pending.insert(ev.pid, key);
        } else if ev.direction == DIR_ACCEPT {
            self.connections.insert(key, tuple);
        } else if ev.direction == DIR_IP_INFO {
            let pending_key = match self.pending.get(&ev.pid) {
                Some(pk) => Some(*pk),
                None => None,
            };
            if let Some(pk) = pending_key {
                let stored = match self.connections.get(&pk) {
                    Some(ci) => Some(*ci),
                    None => None,
                };
                if let Some(ci) = stored {
                    self.connections.insert(
                        pk,
                        ConnectionInfo {
                            saddr: tuple.saddr,
                            daddr: ci.daddr,
                            sport: tuple.sport,
                            dport: ci.dport,
                        },
                    );
                }
            }
        } else if ev.direction == DIR_TX || ev.direction == DIR_RX {
            let stored = match self.connections.get(&key) {
                Some(ci) => Some(*ci),
                None => None,
            };
            if let Some(ci) = stored {
                tuple = ci;
            }
        }
        let scan = l7_scan(&ev.payload, ev.data_len, tuple.sport, tuple.dport, ev.direction);
        let mut latency_ms: Option<u64> = None;
        match &scan.l7 {
            Some(l) => {
                if l7_opens(l) {
                    self.sessions.insert(key, now_ms);
                } else {
                    match self.sessions.remove(&key) {
                        Some(start) => {
                            latency_ms = Some(
                                if now_ms >= start {
                                    now_ms - start
                                } else {
                                    0
                                },
                            );
                        },
                        None => {},
                    }
                }
            },
            None => {},
        }
        if scan.noisy {
            return None;
        }
        if ev.direction == DIR_CONNECT || ev.direction == DIR_ACCEPT || scan.l7.is_some() {
            Some(
                EmitRecord {
                    direction: ev.direction,
                    pid: ev.pid,
                    cgroup_id: ev.cgroup_id,
                    saddr: tuple.saddr,
                    daddr: tuple.daddr,
                    sport: tuple.sport,
                    dport: tuple.dport,
                    l7: scan.l7,
                    latency_ms,
                },
            )
        } else {
            None
        }
    }
}

/// Correlation completeness: after a CONNECT and the IP_INFO that the
/// same pid links to it, a TX on the same `(cgroup_id, fd)` is reported
/// with exactly the tuple the kernel assigned at SYN emission — source
/// from the detail record, destination from the connect record, all in
/// host order. Whenever that TX is emitted at all, the emitted record
/// carries that same tuple.
pub proof fn lemma_correlation_completeness(
    v: CorrView,
    connect_ev: TcpEvent,
    detail_ev: TcpEvent,
    tx_ev: TcpEvent,
    t0: u64,
    t1: u64,
    t2: u64,
)
    requires
        connect_ev.direction == DIR_CONNECT,
        detail_ev.direction == DIR_IP_INFO,
        tx_ev.direction == DIR_TX,
        detail_ev.pid == connect_ev.pid,
        tx_ev.cgroup_id == connect_ev.cgroup_id,
        tx_ev.fd == connect_ev.fd,
    ensures
        ({
            let v1 = spec_step(v, connect_ev, t0);
            let v2 = spec_step(v1, detail_ev, t1);
            let assigned = ConnectionInfo {
                saddr: spec_swap32(detail_ev.saddr),
                daddr: spec_swap32(connect_ev.daddr),
                sport: spec_swap16(detail_ev.sport),
                dport: spec_swap16(connect_ev.dport),
            };
            &&& spec_substituted(v2, tx_ev) == assigned
            &&& match spec_step_emit(v2, tx_ev, t2) {
                Some(rec) => rec.saddr == assigned.saddr && rec.daddr == assigned.daddr
                    && rec.sport == assigned.sport && rec.dport == assigned.dport,
                None => true,
            }
        }),
{
    let k = spec_session_key(connect_ev.cgroup_id, connect_ev.fd);
    let v1 = spec_step(v, connect_ev, t0);
    assert(v1.pending[connect_ev.pid] == k);
    assert(v1.connections[k] == spec_event_tuple(connect_ev));
    let v2 = spec_step(v1, detail_ev, t1);
    assert(v2.connections[k] == ConnectionInfo {
        saddr: spec_swap32(detail_ev.saddr),
        daddr: spec_swap32(connect_ev.daddr),
        sport: spec_swap16(detail_ev.sport),
        dport: spec_swap16(connect_ev.dport),
    });
}

/// The printable name of a direction tag, as the emitter labels records.
pub fn direction_label(direction: u8) -> (r: &'static str)
    ensures
        direction == DIR_CONNECT ==> r@ == "CONNECT"@,
        direction == DIR_ACCEPT ==> r@ == "ACCEPT"@,
        direction == DIR_TX ==> r@ == "TX"@,
        direction != DIR_CONNECT && direction != DIR_ACCEPT && direction != DIR_TX ==> r@
            == "RX"@,
{
    if direction == DIR_CONNECT {
        "CONNECT"
    } else if direction == DIR_ACCEPT {
        "ACCEPT"
    } else if direction == DIR_TX {
        "TX"
    } else {
        "RX"
    }
}

} // verus!
