use masdeepflow::events::{AF_INET, DIR_ACCEPT, DIR_CONNECT, DIR_IP_INFO, DIR_RX, DIR_TX};
use masdeepflow::filter::FilterPidTable;
use masdeepflow::netorder::{swap16, swap32};
use masdeepflow::pairing::ReadPairing;
use masdeepflow::probes::{
    accept_event, connect_enter_event, exec_event, ip_info_event, read_enter_update,
    read_exit_event, tx_enter_event,
};
use masdeepflow::splice::{
    redirect_decision, redirect_key, registration_key, sock_ops_update, InterceptMap, SockKey,
    SK_PASS, SOCK_OPS_ACTIVE_ESTABLISHED, SOCK_OPS_PASSIVE_ESTABLISHED,
};

fn comm(name: &str) -> [u8; 16] {
    let mut c = [0u8; 16];
    for (i, b) in name.bytes().enumerate() {
        if i < 16 {
            c[i] = b;
        }
    }
    c
}

#[test]
fn swap_matches_byte_reversal() {
    assert_eq!(swap16(80), 80u16.swap_bytes());
    assert_eq!(swap16(0x0cea), 0xea0c);
    assert_eq!(swap32(0x0100007f), 0x7f000001);
    assert_eq!(swap32(0x01010101), 0x01010101);
}

#[test]
fn swap_twice_is_identity() {
    for x in [0u16, 1, 80, 3306, 0xea0c, 0xffff] {
        assert_eq!(swap16(swap16(x)), x);
    }
    for x in [0u32, 1, 0x7f000001, 0x0100007f, 0xdeadbeef, 0xffffffff] {
        assert_eq!(swap32(swap32(x)), x);
    }
}

#[test]
fn splice_key_symmetry_concrete() {
    // Two peers on one host: A at 127.0.0.1:40000, B at 127.0.0.1:8080.
    let a_ip = 0x0100007f;
    let b_ip = 0x0100007f;
    let a_port: u32 = 40000;
    let b_port: u32 = 8080;
    // Each side sees its own port in host order, the peer's in network
    // order (a full 32-bit byte swap in these hook contexts).
    let b_registers = registration_key(b_ip, a_ip, b_port, a_port.swap_bytes());
    let a_looks_up = redirect_key(a_ip, b_ip, a_port, b_port.swap_bytes());
    assert_eq!(b_registers, a_looks_up);
    assert_eq!(
        b_registers,
        SockKey { sip: b_ip, dip: a_ip, sport: b_port, dport: a_port },
    );
}

#[test]
fn splice_hit_redirects_to_peer() {
    let mut map = InterceptMap::new();
    let a_ip = 0x0100007f;
    let b_ip = 0x0100007f;
    let a_port: u32 = 40000;
    let b_port: u32 = 8080;
    // Both ESTABLISHED transitions fire; each socket registers itself.
    sock_ops_update(
        &mut map,
        SOCK_OPS_ACTIVE_ESTABLISHED,
        2,
        a_ip,
        b_ip,
        a_port,
        b_port.swap_bytes(),
        11,
    );
    sock_ops_update(
        &mut map,
        SOCK_OPS_PASSIVE_ESTABLISHED,
        2,
        b_ip,
        a_ip,
        b_port,
        a_port.swap_bytes(),
        22,
    );
    // A write on A finds B's socket and redirects into it.
    let (target, verdict) = redirect_decision(&map, 2, a_ip, b_ip, a_port, b_port.swap_bytes());
    assert_eq!(target, Some(22));
    assert_eq!(verdict, SK_PASS);
    // And symmetrically from B to A.
    let (target, verdict) = redirect_decision(&map, 2, b_ip, a_ip, b_port, a_port.swap_bytes());
    assert_eq!(target, Some(11));
    assert_eq!(verdict, SK_PASS);
}

#[test]
fn splice_miss_passes_to_stack() {
    let map = InterceptMap::new();
    let (target, verdict) = redirect_decision(&map, 2, 1, 2, 3, 4);
    assert_eq!(target, None);
    assert_eq!(verdict, SK_PASS);
}

#[test]
fn splice_ignores_other_families_and_ops() {
    let mut map = InterceptMap::new();
    // Not IPv4: no registration.
    sock_ops_update(&mut map, SOCK_OPS_ACTIVE_ESTABLISHED, 10, 1, 2, 3, 4, 7);
    // Not an ESTABLISHED transition: no registration.
    sock_ops_update(&mut map, 4, 2, 1, 2, 3, 4, 7);
    let key = registration_key(1, 2, 3, 4);
    assert_eq!(map.lookup(&key), None);
    // Not IPv4 at send time: no lookup either.
    let (target, verdict) = redirect_decision(&map, 10, 1, 2, 3, 4);
    assert_eq!(target, None);
    assert_eq!(verdict, SK_PASS);
}

#[test]
fn exec_event_carries_identity() {
    let e = exec_event(10, 77, comm("curl"));
    assert_eq!(e.pid, 10);
    assert_eq!(e.cgroup_id, 77);
    assert_eq!(&e.comm[..4], b"curl");
}

#[test]
fn connect_event_ipv4() {
    let t = FilterPidTable::new();
    let e = connect_enter_event(10, 77, &comm("curl"), &t, 5, 16, AF_INET, 80u16.swap_bytes(), 0x01010101)
        .unwrap();
    assert_eq!(e.pid, 10);
    assert_eq!(e.fd, 5);
    assert_eq!(e.cgroup_id, 77);
    assert_eq!(e.saddr, 0);
    assert_eq!(e.sport, 0);
    assert_eq!(e.daddr, 0x01010101);
    assert_eq!(e.dport, 80u16.swap_bytes());
    assert_eq!(e.direction, DIR_CONNECT);
    assert_eq!(e.data_len, 0);
}

#[test]
fn connect_event_skips_short_or_foreign_sockaddr() {
    let t = FilterPidTable::new();
    assert!(connect_enter_event(10, 77, &comm("curl"), &t, 5, 8, AF_INET, 80, 1).is_none());
    assert!(connect_enter_event(10, 77, &comm("curl"), &t, 5, 16, 10, 80, 1).is_none());
}

#[test]
fn connect_event_excluded_process_silent() {
    let mut t = FilterPidTable::new();
    t.register(99);
    assert!(connect_enter_event(10, 77, &comm("dockerd"), &t, 5, 16, AF_INET, 80, 1).is_none());
    assert!(connect_enter_event(99, 77, &comm("curl"), &t, 5, 16, AF_INET, 80, 1).is_none());
}

#[test]
fn ip_info_and_accept_events() {
    let t = FilterPidTable::new();
    let e = ip_info_event(10, 77, &comm("curl"), &t, 0x0500000a, 54321u16.swap_bytes(), 0x01010101)
        .unwrap();
    assert_eq!(e.direction, DIR_IP_INFO);
    assert_eq!(e.fd, 0);
    assert_eq!(e.saddr, 0x0500000a);
    assert_eq!(e.dport, 0);
    let e = accept_event(20, 88, &comm("nginx"), &t, 3, 4, 5, 6).unwrap();
    assert_eq!(e.direction, DIR_ACCEPT);
    assert_eq!(e.fd, 0);
    assert_eq!(e.saddr, 3);
    assert_eq!(e.daddr, 4);
    assert_eq!(e.sport, 5);
    assert_eq!(e.dport, 6);
    let mut t2 = FilterPidTable::new();
    t2.register(20);
    assert!(ip_info_event(20, 88, &comm("curl"), &t2, 1, 2, 3).is_none());
    assert!(accept_event(20, 88, &comm("nginx"), &t2, 3, 4, 5, 6).is_none());
}

#[test]
fn stdio_writes_produce_no_event() {
    let t = FilterPidTable::new();
    let buf = b"hello world";
    assert!(tx_enter_event(10, 77, &comm("curl"), &t, 0, buf.len() as u64, buf).is_none());
    assert!(tx_enter_event(10, 77, &comm("curl"), &t, 1, buf.len() as u64, buf).is_none());
    assert!(tx_enter_event(10, 77, &comm("curl"), &t, 2, buf.len() as u64, buf).is_none());
}

#[test]
fn agent_own_writes_produce_no_event() {
    let mut t = FilterPidTable::new();
    t.register(4242);
    let buf = b"GET / HTTP/1.1\r\n\r\n";
    // Excluded by pid, even on a high descriptor.
    assert!(tx_enter_event(4242, 77, &comm("myagent"), &t, 7, buf.len() as u64, buf).is_none());
    // Excluded by command name, pid unknown.
    assert!(
        tx_enter_event(10, 77, &comm("masdeepflow"), &t, 7, buf.len() as u64, buf).is_none()
    );
}

#[test]
fn tx_event_captures_prefix_and_count() {
    let t = FilterPidTable::new();
    let buf = b"GET / HTTP/1.1\r\n\r\n";
    let e = tx_enter_event(10, 77, &comm("curl"), &t, 7, 4096, buf).unwrap();
    assert_eq!(e.direction, DIR_TX);
    assert_eq!(e.fd, 7);
    assert_eq!(e.data_len, 4096);
    assert_eq!(&e.payload[..buf.len()], &buf[..]);
    assert!(e.payload[buf.len()..].iter().all(|b| *b == 0));
}

#[test]
fn read_path_pairs_enter_with_exit() {
    let t = FilterPidTable::new();
    let mut pairing = ReadPairing::new();
    read_enter_update(&mut pairing, 10, &comm("curl"), &t, 9, 0x5000);
    let info = pairing.take(10).unwrap();
    assert_eq!(info.fd, 9);
    assert_eq!(info.buf_ptr, 0x5000);
    let buf = b"HTTP/1.1 200 OK\r\n";
    let e = read_exit_event(10, 77, info.fd, buf.len() as i64, buf).unwrap();
    assert_eq!(e.direction, DIR_RX);
    assert_eq!(e.fd, 9);
    assert_eq!(e.data_len, buf.len() as u32);
    assert_eq!(&e.payload[..buf.len()], &buf[..]);
}

#[test]
fn read_path_skips_excluded_stdio_and_failures() {
    let mut t = FilterPidTable::new();
    t.register(50);
    let mut pairing = ReadPairing::new();
    // Excluded pid parks nothing, so the exit finds nothing.
    read_enter_update(&mut pairing, 50, &comm("curl"), &t, 9, 0x5000);
    assert!(pairing.take(50).is_none());
    // Infrastructure comm parks nothing.
    read_enter_update(&mut pairing, 10, &comm("containerd"), &t, 9, 0x5000);
    assert!(pairing.take(10).is_none());
    // Stdio descriptors and null buffers park nothing.
    read_enter_update(&mut pairing, 10, &comm("curl"), &t, 2, 0x5000);
    read_enter_update(&mut pairing, 10, &comm("curl"), &t, 9, 0);
    assert!(pairing.take(10).is_none());
    // A failed read emits nothing.
    assert!(read_exit_event(10, 77, 9, -1, b"").is_none());
    assert!(read_exit_event(10, 77, 9, 0, b"").is_none());
}
