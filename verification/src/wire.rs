//! The fixed binary wire layout shared between kernel and user space.
//!
//! Records cross the ring buffer as raw bytes and the reader
//! reinterprets them; both sides must therefore agree on every offset.
//! The layout is the C one for these structs on the canonical 64-bit
//! targets: fields at fixed offsets, little-endian integers, alignment
//! padding zeroed. `ProcessEvent` occupies 32 bytes, `TcpEvent` 168.

use crate::events::{ProcessEvent, TcpEvent};
use vstd::array::ArrayAdditionalExecFns;
use vstd::bytes::{
    spec_u16_from_le_bytes, spec_u16_to_le_bytes, spec_u32_from_le_bytes, spec_u32_to_le_bytes,
    spec_u64_from_le_bytes, spec_u64_to_le_bytes, u16_from_le_bytes, u16_to_le_bytes,
    u32_from_le_bytes, u32_to_le_bytes, u64_from_le_bytes, u64_to_le_bytes,
};
use vstd::prelude::*;
use vstd::slice::slice_subrange;

verus! {

/// Wire size of a `ProcessEvent` record.
pub const PROCESS_EVENT_BYTES: usize = 32;

/// Wire size of a `TcpEvent` record.
pub const TCP_EVENT_BYTES: usize = 168;

/// The byte image of a `ProcessEvent`: pid at 0, four padding bytes,
/// cgroup id at 8, command name at 16.
pub open spec fn spec_process_event_bytes(e: ProcessEvent) -> Seq<u8> {
    spec_u32_to_le_bytes(e.pid) + seq![0u8, 0u8, 0u8, 0u8] + spec_u64_to_le_bytes(e.cgroup_id)
        + e.comm@
}

/// The byte image of a `TcpEvent`: pid 0, fd 4, cgroup id 8, source
/// address 16, destination address 20, ports 24 and 26, family 28,
/// direction 30, one padding byte, data length 32, payload 36, four
/// trailing padding bytes.
pub open spec fn spec_tcp_event_bytes(e: TcpEvent) -> Seq<u8> {
    spec_u32_to_le_bytes(e.pid) + spec_u32_to_le_bytes(e.fd) + spec_u64_to_le_bytes(e.cgroup_id)
        + spec_u32_to_le_bytes(e.saddr) + spec_u32_to_le_bytes(e.daddr) + spec_u16_to_le_bytes(
        e.sport,
    ) + spec_u16_to_le_bytes(e.dport) + spec_u16_to_le_bytes(e.family) + seq![e.direction, 0u8]
        + spec_u32_to_le_bytes(e.data_len) + e.payload@ + seq![0u8, 0u8, 0u8, 0u8]
}

/// Serializes a `ProcessEvent` into its wire image.
pub fn encode_process_event(e: &ProcessEvent) -> (r: Vec<u8>)
    ensures
        r@ == spec_process_event_bytes(*e),
        r@.len() == PROCESS_EVENT_BYTES,
{
    proof {
        vstd::bytes::lemma_auto_spec_u32_to_from_le_bytes();
        vstd::bytes::lemma_auto_spec_u64_to_from_le_bytes();
    }
    let mut out: Vec<u8> = Vec::new();
    let mut field = u32_to_le_bytes(e.pid);
    out.append(&mut field);
    out.push(0);
    out.push(0);
    out.push(0);
    out.push(0);
    let mut field = u64_to_le_bytes(e.cgroup_id);
    out.append(&mut field);
    let mut i: usize = 0;
    while i < 16
        invariant
            i <= 16,
            out@ == spec_u32_to_le_bytes(e.pid) + seq![0u8, 0u8, 0u8, 0u8] + spec_u64_to_le_bytes(
                e.cgroup_id,
            ) + e.comm@.take(i as int),
        decreases 16 - i,
    {
        out.push(e.comm[i]);
        proof {
            assert(e.comm@.take(i + 1) =~= e.comm@.take(i as int).push(e.comm@[i as int]));
            assert(out@ =~= spec_u32_to_le_bytes(e.pid) + seq![0u8, 0u8, 0u8, 0u8]
                + spec_u64_to_le_bytes(e.cgroup_id) + e.comm@.take(i + 1));
        }
        i = i + 1;
    }
    proof {
        assert(e.comm@.take(16) =~= e.comm@);
        assert(out@ =~= spec_process_event_bytes(*e));
    }
    out
}

/// Deserializes a `ProcessEvent` from the start of a byte buffer; fails
/// exactly when the buffer is shorter than a record.
pub fn decode_process_event(bytes: &[u8]) -> (r: Option<ProcessEvent>)
    ensures
        r is Some <==> bytes@.len() >= PROCESS_EVENT_BYTES,
        r matches Some(e) ==> ({
            &&& e.pid == spec_u32_from_le_bytes(bytes@.subrange(0, 4))
            &&& e.cgroup_id == spec_u64_from_le_bytes(bytes@.subrange(8, 16))
            &&& e.comm@ == bytes@.subrange(16, 32)
        }),
{
    if bytes.len() < PROCESS_EVENT_BYTES {
        return None;
    }
    let pid = u32_from_le_bytes(slice_subrange(bytes, 0, 4));
    let cgroup_id = u64_from_le_bytes(slice_subrange(bytes, 8, 16));
    let mut comm = [0u8; 16];
    let mut i: usize = 0;
    while i < 16
        invariant
            i <= 16,
            bytes@.len() >= 32,
            comm@.len() == 16,
            forall|j: int| 0 <= j < i ==> comm@[j] == bytes@[16 + j],
        decreases 16 - i,
    {
        comm.set(i, bytes[16 + i]);
        i = i + 1;
    }
    proof {
        assert(comm@ =~= bytes@.subrange(16, 32));
    }
    Some(ProcessEvent { pid, cgroup_id, comm })
}

/// The wire image of a `ProcessEvent` decodes back to the same record.
pub proof fn lemma_process_event_round_trip(e: ProcessEvent)
    ensures
        ({
            let b = spec_process_event_bytes(e);
            &&& b.len() == PROCESS_EVENT_BYTES
            &&& spec_u32_from_le_bytes(b.subrange(0, 4)) == e.pid
            &&& spec_u64_from_le_bytes(b.subrange(8, 16)) == e.cgroup_id
            &&& b.subrange(16, 32) == e.comm@
        }),
{
    vstd::bytes::lemma_auto_spec_u32_to_from_le_bytes();
    vstd::bytes::lemma_auto_spec_u64_to_from_le_bytes();
    let b = spec_process_event_bytes(e);
    assert(b.subrange(0, 4) =~= spec_u32_to_le_bytes(e.pid));
    assert(b.subrange(8, 16) =~= spec_u64_to_le_bytes(e.cgroup_id));
    assert(b.subrange(16, 32) =~= e.comm@);
}

/// Serializes a `TcpEvent` into its wire image.
pub fn encode_tcp_event(e: &TcpEvent) -> (r: Vec<u8>)
    ensures
        r@ == spec_tcp_event_bytes(*e),
        r@.len() == TCP_EVENT_BYTES,
{
    proof {
        vstd::bytes::lemma_auto_spec_u16_to_from_le_bytes();
        vstd::bytes::lemma_auto_spec_u32_to_from_le_bytes();
        vstd::bytes::lemma_auto_spec_u64_to_from_le_bytes();
    }
    let ghost head = spec_u32_to_le_bytes(e.pid) + spec_u32_to_le_bytes(e.fd)
        + spec_u64_to_le_bytes(e.cgroup_id) + spec_u32_to_le_bytes(e.saddr) + spec_u32_to_le_bytes(
        e.daddr,
    ) + spec_u16_to_le_bytes(e.sport) + spec_u16_to_le_bytes(e.dport) + spec_u16_to_le_bytes(
        e.family,
    ) + seq![e.direction, 0u8] + spec_u32_to_le_bytes(e.data_len);
    let mut out: Vec<u8> = Vec::new();
    let mut field = u32_to_le_bytes(e.pid);
    out.append(&mut field);
    let mut field = u32_to_le_bytes(e.fd);
    out.append(&mut field);
    let mut field = u64_to_le_bytes(e.cgroup_id);
    out.append(&mut field);
    let mut field = u32_to_le_bytes(e.saddr);
    out.append(&mut field);
    let mut field = u32_to_le_bytes(e.daddr);
    out.append(&mut field);
    let mut field = u16_to_le_bytes(e.sport);
    out.append(&mut field);
    let mut field = u16_to_le_bytes(e.dport);
    out.append(&mut field);
    let mut field = u16_to_le_bytes(e.family);
    out.append(&mut field);
    out.push(e.direction);
    out.push(0);
    let mut field = u32_to_le_bytes(e.data_len);
    out.append(&mut field);
    proof {
        assert(out@ =~= head);
    }
    let mut i: usize = 0;
    while i < 128
        invariant
            i <= 128,
            out@ == head + e.payload@.take(i as int),
        decreases 128 - i,
    {
        out.push(e.payload[i]);
        proof {
            assert(e.payload@.take(i + 1) =~= e.payload@.take(i as int).push(
                e.payload@[i as int],
            ));
            assert(out@ =~= head + e.payload@.take(i + 1));
        }
        i = i + 1;
    }
    out.push(0);
    out.push(0);
    out.push(0);
    out.push(0);
    proof {
        assert(e.payload@.take(128) =~= e.payload@);
        assert(out@ =~= spec_tcp_event_bytes(*e));
    }
    out
}

/// Deserializes a `TcpEvent` from the start of a byte buffer; fails
/// exactly when the buffer is shorter than a record.
pub fn decode_tcp_event(bytes: &[u8]) -> (r: Option<TcpEvent>)
    ensures
        r is Some <==> bytes@.len() >= TCP_EVENT_BYTES,
        r matches Some(e) ==> ({
            &&& e.pid == spec_u32_from_le_bytes(bytes@.subrange(0, 4))
            &&& e.fd == spec_u32_from_le_bytes(bytes@.subrange(4, 8))
            &&& e.cgroup_id == spec_u64_from_le_bytes(bytes@.subrange(8, 16))
            &&& e.saddr == spec_u32_from_le_bytes(bytes@.subrange(16, 20))
            &&& e.daddr == spec_u32_from_le_bytes(bytes@.subrange(20, 24))
            &&& e.sport == spec_u16_from_le_bytes(bytes@.subrange(24, 26))
            &&& e.dport == spec_u16_from_le_bytes(bytes@.subrange(26, 28))
            &&& e.family == spec_u16_from_le_bytes(bytes@.subrange(28, 30))
            &&& e.direction == bytes@[30]
            &&& e.data_len == spec_u32_from_le_bytes(bytes@.subrange(32, 36))
            &&& e.payload@ == bytes@.subrange(36, 164)
        }),
{
    if bytes.len() < TCP_EVENT_BYTES {
        return None;
    }
    let pid = u32_from_le_bytes(slice_subrange(bytes, 0, 4));
    let fd = u32_from_le_bytes(slice_subrange(bytes, 4, 8));
    let cgroup_id = u64_from_le_bytes(slice_subrange(bytes, 8, 16));
    let saddr = u32_from_le_bytes(slice_subrange(bytes, 16, 20));
    let daddr = u32_from_le_bytes(slice_subrange(bytes, 20, 24));
    let sport = u16_from_le_bytes(slice_subrange(bytes, 24, 26));
    let dport = u16_from_le_bytes(slice_subrange(bytes, 26, 28));
    let family = u16_from_le_bytes(slice_subrange(bytes, 28, 30));
    let direction = bytes[30];
    let data_len = u32_from_le_bytes(slice_subrange(bytes, 32, 36));
    let mut payload = [0u8; 128];
    let mut i: usize = 0;
    while i < 128
        invariant
            i <= 128,
            bytes@.len() >= 168,
            payload@.len() == 128,
            forall|j: int| 0 <= j < i ==> payload@[j] == bytes@[36 + j],
        decreases 128 - i,
    {
        payload.set(i, bytes[36 + i]);
        i = i + 1;
    }
    proof {
        assert(payload@ =~= bytes@.subrange(36, 164));
    }
    Some(
        TcpEvent {
            pid,
            fd,
            cgroup_id,
            saddr,
            daddr,
            sport,
            dport,
            family,
            direction,
            data_len,
            payload,
        },
    )
}

/// The wire image of a `TcpEvent` decodes back to the same record,
/// field for field.
pub proof fn lemma_tcp_event_round_trip(e: TcpEvent)
    ensures
        ({
            let b = spec_tcp_event_bytes(e);
            &&& b.len() == TCP_EVENT_BYTES
            &&& spec_u32_from_le_bytes(b.subrange(0, 4)) == e.pid
            &&& spec_u32_from_le_bytes(b.subrange(4, 8)) == e.fd
            &&& spec_u64_from_le_bytes(b.subrange(8, 16)) == e.cgroup_id
            &&& spec_u32_from_le_bytes(b.subrange(16, 20)) == e.saddr
            &&& spec_u32_from_le_bytes(b.subrange(20, 24)) == e.daddr
            &&& spec_u16_from_le_bytes(b.subrange(24, 26)) == e.sport
            &&& spec_u16_from_le_bytes(b.subrange(26, 28)) == e.dport
            &&& spec_u16_from_le_bytes(b.subrange(28, 30)) == e.family
            &&& b[30] == e.direction
            &&& spec_u32_from_le_bytes(b.subrange(32, 36)) == e.data_len
            &&& b.subrange(36, 164) == e.payload@
        }),
{
    vstd::bytes::lemma_auto_spec_u16_to_from_le_bytes();
    vstd::bytes::lemma_auto_spec_u32_to_from_le_bytes();
    vstd::bytes::lemma_auto_spec_u64_to_from_le_bytes();
    let b = spec_tcp_event_bytes(e);
    assert(b.subrange(0, 4) =~= spec_u32_to_le_bytes(e.pid));
    assert(b.subrange(4, 8) =~= spec_u32_to_le_bytes(e.fd));
    assert(b.subrange(8, 16) =~= spec_u64_to_le_bytes(e.cgroup_id));
    assert(b.subrange(16, 20) =~= spec_u32_to_le_bytes(e.saddr));
    assert(b.subrange(20, 24) =~= spec_u32_to_le_bytes(e.daddr));
    assert(b.subrange(24, 26) =~= spec_u16_to_le_bytes(e.sport));
    assert(b.subrange(26, 28) =~= spec_u16_to_le_bytes(e.dport));
    assert(b.subrange(28, 30) =~= spec_u16_to_le_bytes(e.family));
    assert(b.subrange(32, 36) =~= spec_u32_to_le_bytes(e.data_len));
    assert(b.subrange(36, 164) =~= e.payload@);
}

} // verus!
