//! Socket-splice fast path: key construction and redirect decision.
//!
//! Two cooperating kernel hooks share one socket-keyed hash map. The
//! sock-ops hook registers every established IPv4 socket under its own
//! four-tuple; the sk-msg hook, on each outgoing message, computes the
//! key under which the *peer* socket registered and, on a hit, redirects
//! the message straight into the peer's ingress queue. Port fields in the
//! map are always host byte order; every caller converts before insert
//! and lookup. A miss is not an error — the peer is simply not on this
//! host, and the verdict stays "pass" so the standard stack takes over.

use crate::netorder::{spec_swap32, swap32};
use std::collections::HashMap;
use vstd::prelude::*;

verus! {

broadcast use vstd::std_specs::hash::group_hash_axioms;

/// Four-tuple identifying a redirectable socket in the splice map, with
/// normalized byte order: addresses as the hooks hand them out, ports in
/// host order.
#[derive(Clone, Copy, PartialEq, Eq, Structural, Debug)]
pub struct SockKey {
    /// Source IPv4 address (the registering socket's local address).
    pub sip: u32,
    /// Destination IPv4 address (the registering socket's remote address).
    pub dip: u32,
    /// Source port, host byte order.
    pub sport: u32,
    /// Destination port, host byte order.
    pub dport: u32,
}

/// The key under which an established socket registers itself: its own
/// local address and port first. `local_port` arrives in host order,
/// `remote_port` in network order and is normalized here.
pub open spec fn spec_registration_key(
    local_ip: u32,
    remote_ip: u32,
    local_port: u32,
    remote_port: u32,
) -> SockKey {
    SockKey {
        sip: local_ip,
        dip: remote_ip,
        sport: local_port,
        dport: spec_swap32(remote_port),
    }
}

/// The key a sender computes to reach its peer: the four-tuple seen from
/// the peer's perspective, ports normalized to host order.
pub open spec fn spec_redirect_key(
    local_ip: u32,
    remote_ip: u32,
    local_port: u32,
    remote_port: u32,
) -> SockKey {
    SockKey {
        sip: remote_ip,
        dip: local_ip,
        sport: spec_swap32(remote_port),
        dport: local_port,
    }
}

/// Builds the registration key for an established socket.
pub fn registration_key(local_ip: u32, remote_ip: u32, local_port: u32, remote_port: u32) -> (r:
    SockKey)
    ensures
        r == spec_registration_key(local_ip, remote_ip, local_port, remote_port),
{
    SockKey { sip: local_ip, dip: remote_ip, sport: local_port, dport: swap32(remote_port) }
}

/// Builds the reverse-lookup key a sender uses to find its peer.
pub fn redirect_key(local_ip: u32, remote_ip: u32, local_port: u32, remote_port: u32) -> (r:
    SockKey)
    ensures
        r == spec_redirect_key(local_ip, remote_ip, local_port, remote_port),
{
    SockKey { sip: remote_ip, dip: local_ip, sport: swap32(remote_port), dport: local_port }
}

/// Splice key symmetry: for two established peer sockets A and B on the
/// same host, the key under which B registers equals the reverse-lookup
/// key A computes for redirecting to B.
///
/// A and B each see their own port in host order and the peer's port in
/// network order; `a_port` and `b_port` here are the host-order values.
pub proof fn lemma_splice_key_symmetry(a_ip: u32, b_ip: u32, a_port: u32, b_port: u32)
    ensures
        spec_registration_key(b_ip, a_ip, b_port, spec_swap32(a_port)) == spec_redirect_key(
            a_ip,
            b_ip,
            a_port,
            spec_swap32(b_port),
        ),
{
    crate::netorder::lemma_swap32_involutive(a_port);
    crate::netorder::lemma_swap32_involutive(b_port);
}

/// Packs a splice key into one 128-bit map key, field by field.
pub open spec fn spec_sock_key_pack(k: SockKey) -> u128 {
    ((k.sip as u128) << 96) | ((k.dip as u128) << 64) | ((k.sport as u128) << 32) | (
    k.dport as u128)
}

/// Packing is injective: distinct four-tuples never collide in the map.
pub proof fn lemma_sock_key_pack_injective(k1: SockKey, k2: SockKey)
    requires
        spec_sock_key_pack(k1) == spec_sock_key_pack(k2),
    ensures
        k1 == k2,
{
    let s1 = k1.sip;
    let d1 = k1.dip;
    let p1 = k1.sport;
    let q1 = k1.dport;
    let s2 = k2.sip;
    let d2 = k2.dip;
    let p2 = k2.sport;
    let q2 = k2.dport;
    assert(((s1 as u128) << 96) | ((d1 as u128) << 64) | ((p1 as u128) << 32) | (q1 as u128) == ((
    s2 as u128) << 96) | ((d2 as u128) << 64) | ((p2 as u128) << 32) | (q2 as u128) ==> s1 == s2
        && d1 == d2 && p1 == p2 && q1 == q2) by (bit_vector);
}

fn sock_key_pack(k: &SockKey) -> (r: u128)
    ensures
        r == spec_sock_key_pack(*k),
{
    ((k.sip as u128) << 96) | ((k.dip as u128) << 64) | ((k.sport as u128) << 32) | (
    k.dport as u128)
}

/// Most sockets the splice map can hold; beyond that a registration is
/// dropped silently and the affected flow stays on the standard stack.
pub const INTERCEPT_CAP: usize = 65535;

/// Established-socket state transition that registers a socket:
/// the server side reaching ESTABLISHED.
pub const SOCK_OPS_PASSIVE_ESTABLISHED: u32 = 0;

/// Established-socket state transition that registers a socket:
/// the client side reaching ESTABLISHED.
pub const SOCK_OPS_ACTIVE_ESTABLISHED: u32 = 1;

/// Verdict that lets a message fall through to the standard stack;
/// returned unconditionally, a successful redirect simply takes the data
/// away first.
pub const SK_PASS: u32 = 1;

/// The socket-keyed hash map shared by the two hooks. Socket references
/// are opaque here; the map carries them as handles.
pub struct InterceptMap {
    sockets: HashMap<u128, u64>,
}

impl InterceptMap {
    /// The registered sockets, keyed by their packed four-tuple.
    pub closed spec fn view(&self) -> Map<u128, u64> {
        self.sockets@
    }

    /// Creates an empty splice map.
    pub fn new() -> (r: Self)
        ensures
            r@ == Map::<u128, u64>::empty(),
    {
        InterceptMap { sockets: HashMap::new() }
    }

    /// Registers a socket handle under its key, overwriting a previous
    /// registration of the same tuple. With the map at capacity the
    /// insertion is dropped silently.
    pub fn register(&mut self, key: &SockKey, sock: u64) -> (stored: bool)
        ensures
            stored == (old(self)@.len() < INTERCEPT_CAP || old(self)@.contains_key(
                spec_sock_key_pack(*key),
            )),
            stored ==> final(self)@ == old(self)@.insert(spec_sock_key_pack(*key), sock),
            !stored ==> final(self)@ == old(self)@,
    {
        let packed = sock_key_pack(key);
        if self.sockets.len() < INTERCEPT_CAP || self.sockets.contains_key(&packed) {
            self.sockets.insert(packed, sock);
            true
        } else {
            false
        }
    }

    /// Looks a key up; a hit returns the registered socket handle.
    pub fn lookup(&self, key: &SockKey) -> (r: Option<u64>)
        ensures
            ({
                let packed = spec_sock_key_pack(*key);
                match r {
                    Some(sock) => self@.contains_key(packed) && sock == self@[packed],
                    None => !self@.contains_key(packed),
                }
            }),
    {
        let packed = sock_key_pack(key);
        match self.sockets.get(&packed) {
            Some(sock) => Some(*sock),
            None => None,
        }
    }
}

/// The sock-ops hook's decision: on an IPv4 socket reaching ESTABLISHED
/// (either side), register it in the splice map under its normalized
/// four-tuple; on any other transition or family, leave the map alone.
pub fn sock_ops_update(
    map: &mut InterceptMap,
    op: u32,
    family: u32,
    local_ip: u32,
    remote_ip: u32,
    local_port: u32,
    remote_port: u32,
    sock: u64,
)
    ensures
        ({
            let relevant = (op == SOCK_OPS_PASSIVE_ESTABLISHED || op == SOCK_OPS_ACTIVE_ESTABLISHED)
                && family == 2;
            let key = spec_sock_key_pack(
                spec_registration_key(local_ip, remote_ip, local_port, remote_port),
            );
            &&& !relevant ==> final(map)@ == old(map)@
            &&& relevant && (old(map)@.len() < INTERCEPT_CAP || old(map)@.contains_key(key))
                ==> final(map)@ == old(map)@.insert(key, sock)
            &&& relevant && !(old(map)@.len() < INTERCEPT_CAP || old(map)@.contains_key(key))
                ==> final(map)@ == old(map)@
        }),
{
    if op != SOCK_OPS_PASSIVE_ESTABLISHED && op != SOCK_OPS_ACTIVE_ESTABLISHED {
        return ;
    }
    if family != 2 {
        return ;
    }
    let key = registration_key(local_ip, remote_ip, local_port, remote_port);
    map.register(&key, sock);
}

/// The sk-msg hook's decision: compute the peer's registration key and
/// look it up. A hit names the socket the message is redirected to; the
/// verdict is "pass" either way, so a miss falls through to the standard
/// stack.
pub fn redirect_decision(
    map: &InterceptMap,
    family: u32,
    local_ip: u32,
    remote_ip: u32,
    local_port: u32,
    remote_port: u32,
) -> (r: (Option<u64>, u32))
    ensures
        r.1 == SK_PASS,
        family != 2 ==> r.0 is None,
        family == 2 ==> ({
            let key = spec_sock_key_pack(
                spec_redirect_key(local_ip, remote_ip, local_port, remote_port),
            );
            match r.0 {
                Some(sock) => map@.contains_key(key) && sock == map@[key],
                None => !map@.contains_key(key),
            }
        }),
{
    if family != 2 {
        return (None, SK_PASS);
    }
    let key = redirect_key(local_ip, remote_ip, local_port, remote_port);
    (map.lookup(&key), SK_PASS)
}

} // verus!
