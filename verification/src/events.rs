//! The two record types shared between kernel and user space.
//!
//! Records are produced in one address space and consumed in another; the
//! reader reinterprets a byte stream as records with no serialization step,
//! so every field has a fixed width and a fixed offset (see `wire`). No
//! versioning field exists: kernel and user side ship together.

use vstd::prelude::*;

verus! {

/// Emitted once per process execution: who started, in which cgroup,
/// under which command name.
#[derive(Clone, Copy)]
pub struct ProcessEvent {
    /// Process id.
    pub pid: u32,
    /// Opaque kernel-assigned cgroup id; keys the external Pod resolver.
    pub cgroup_id: u64,
    /// Command name, NUL-padded to 16 bytes.
    pub comm: [u8; 16],
}

/// Unified record for all network and L7 events.
#[derive(Clone, Copy)]
pub struct TcpEvent {
    /// Process id, for correlation.
    pub pid: u32,
    /// Socket file descriptor; 0 when not applicable.
    pub fd: u32,
    /// Cgroup id of the emitting task.
    pub cgroup_id: u64,
    /// Source IPv4 address, network byte order; 0 when unknown at the probe.
    pub saddr: u32,
    /// Destination IPv4 address, network byte order; 0 when unknown.
    pub daddr: u32,
    /// Source port, network byte order; 0 when unknown.
    pub sport: u16,
    /// Destination port, network byte order; 0 when unknown.
    pub dport: u16,
    /// Address family; always 2 (AF_INET) in this version.
    pub family: u16,
    /// Direction tag; one of the `DIR_*` constants.
    pub direction: u8,
    /// Payload length as reported by the syscall; may exceed the captured
    /// prefix.
    pub data_len: u32,
    /// Prefix of the user-space buffer, truncated to 128 bytes and not
    /// guaranteed NUL-terminated.
    pub payload: [u8; 128],
}

/// Outbound connection initiation observed at the connect syscall.
pub const DIR_CONNECT: u8 = 0;

/// Inbound connection completion observed at accept return.
pub const DIR_ACCEPT: u8 = 1;

/// Outgoing payload observed at a write-style syscall.
pub const DIR_TX: u8 = 2;

/// Incoming payload observed at a read-style syscall exit.
pub const DIR_RX: u8 = 3;

/// Supplementary record that fills in source address and port once the
/// kernel has assigned them, between connect and SYN emission.
pub const DIR_IP_INFO: u8 = 4;

/// The IPv4 address family, the only one this agent observes.
pub const AF_INET: u16 = 2;

/// Number of payload prefix bytes a record can carry.
pub const PAYLOAD_CAP: u32 = 128;

} // verus!
