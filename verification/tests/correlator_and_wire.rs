use masdeepflow::correlator::{direction_label, Correlator, EmitRecord};
use masdeepflow::events::{
    ProcessEvent, TcpEvent, AF_INET, DIR_ACCEPT, DIR_CONNECT, DIR_IP_INFO, DIR_RX, DIR_TX,
};
use masdeepflow::l7::{l7_scan, utf8_valid, L7};
use masdeepflow::pod::resolve_pod;
use masdeepflow::wire::{
    decode_process_event, decode_tcp_event, encode_process_event, encode_tcp_event,
    PROCESS_EVENT_BYTES, TCP_EVENT_BYTES,
};

fn payload_of(bytes: &[u8]) -> [u8; 128] {
    let mut p = [0u8; 128];
    let n = bytes.len().min(128);
    p[..n].copy_from_slice(&bytes[..n]);
    p
}

fn event(direction: u8, pid: u32, cgroup_id: u64, fd: u32, data: &[u8]) -> TcpEvent {
    TcpEvent {
        pid,
        fd,
        cgroup_id,
        saddr: 0,
        daddr: 0,
        sport: 0,
        dport: 0,
        family: AF_INET,
        direction,
        data_len: data.len() as u32,
        payload: payload_of(data),
    }
}

#[test]
fn http_outbound_round_trip() {
    let mut c = Correlator::new();
    let pid = 100;
    let cg = 9;
    let fd = 5;
    // connect to 1.1.1.1:80 — fields as the probe read them, network order.
    let mut ev = event(DIR_CONNECT, pid, cg, fd, b"");
    ev.daddr = u32::from_le_bytes([1, 1, 1, 1]);
    ev.dport = 80u16.swap_bytes();
    let rec = c.handle_event(&ev, 0).expect("handshake is emitted");
    assert_eq!(rec.direction, DIR_CONNECT);
    assert_eq!(rec.daddr, u32::from_be_bytes([1, 1, 1, 1]));
    assert_eq!(rec.dport, 80);
    assert_eq!(rec.saddr, 0);
    assert!(rec.l7.is_none());
    // the kernel assigns 10.0.0.5:54321 at SYN emission.
    let mut ev = event(DIR_IP_INFO, pid, cg, 0, b"");
    ev.saddr = u32::from_le_bytes([10, 0, 0, 5]);
    ev.sport = 54321u16.swap_bytes();
    assert!(c.handle_event(&ev, 1).is_none());
    // the request write: TX with the captured prefix.
    let ev = event(DIR_TX, pid, cg, fd, b"GET / HTTP/1.1\r\nHost: 1.1.1.1\r\n\r\n");
    let rec = c.handle_event(&ev, 100).expect("request is emitted");
    assert_eq!(rec.direction, DIR_TX);
    assert_eq!(rec.saddr, u32::from_be_bytes([10, 0, 0, 5]));
    assert_eq!(rec.daddr, u32::from_be_bytes([1, 1, 1, 1]));
    assert_eq!(rec.sport, 54321);
    assert_eq!(rec.dport, 80);
    assert_eq!(rec.l7, Some(L7::HttpRequest(b"GET / HTTP/1.1".to_vec())));
    assert_eq!(rec.latency_ms, None);
    // the response read: RX closes the session with positive latency.
    let ev = event(DIR_RX, pid, cg, fd, b"HTTP/1.1 200 OK\r\nContent-Length: 0\r\n\r\n");
    let rec = c.handle_event(&ev, 147).expect("response is emitted");
    assert_eq!(rec.direction, DIR_RX);
    assert_eq!(rec.l7, Some(L7::HttpResponse(b"HTTP/1.1 200 OK".to_vec())));
    assert_eq!(rec.latency_ms, Some(47));
    assert!(rec.latency_ms.unwrap() > 0);
    assert_eq!(rec.dport, 80);
}

#[test]
fn mysql_query_response_round_trip() {
    let mut c = Correlator::new();
    let pid = 200;
    let cg = 4;
    let fd = 6;
    let mut ev = event(DIR_CONNECT, pid, cg, fd, b"");
    ev.daddr = u32::from_le_bytes([127, 0, 0, 1]);
    ev.dport = 3306u16.swap_bytes();
    let rec = c.handle_event(&ev, 0).unwrap();
    assert_eq!(rec.dport, 3306);
    let mut query = vec![0x0au8, 0x00, 0x00, 0x00, 0x03];
    query.extend_from_slice(b"SELECT 1;");
    let ev = event(DIR_TX, pid, cg, fd, &query);
    let rec = c.handle_event(&ev, 10).expect("query is emitted");
    assert_eq!(rec.l7, Some(L7::MysqlQuery(b"SELECT 1;".to_vec())));
    assert_eq!(rec.latency_ms, None);
    let ev = event(DIR_RX, pid, cg, fd, &[0x01, 0x00, 0x00, 0x01, 0x00]);
    let rec = c.handle_event(&ev, 62).expect("response is emitted");
    assert_eq!(rec.l7, Some(L7::MysqlOk));
    assert_eq!(rec.latency_ms, Some(52));
}

#[test]
fn mysql_err_head_closes_session() {
    let mut c = Correlator::new();
    let mut ev = event(DIR_CONNECT, 1, 1, 1, b"");
    ev.dport = 3306u16.swap_bytes();
    c.handle_event(&ev, 0);
    let mut query = vec![0x05u8, 0x00, 0x00, 0x00, 0x03];
    query.extend_from_slice(b"BAD SQL");
    c.handle_event(&event(DIR_TX, 1, 1, 1, &query), 5);
    let rec = c.handle_event(&event(DIR_RX, 1, 1, 1, &[0x01, 0x00, 0x00, 0x01, 0xff]), 9).unwrap();
    assert_eq!(rec.l7, Some(L7::MysqlErr));
    assert_eq!(rec.latency_ms, Some(4));
}

#[test]
fn response_without_request_has_no_latency() {
    let mut c = Correlator::new();
    let ev = event(DIR_RX, 1, 1, 1, b"HTTP/1.1 404 Not Found\r\n");
    let rec = c.handle_event(&ev, 50).unwrap();
    assert_eq!(rec.l7, Some(L7::HttpResponse(b"HTTP/1.1 404 Not Found".to_vec())));
    assert_eq!(rec.latency_ms, None);
}

#[test]
fn plain_tx_rx_without_l7_is_suppressed() {
    let mut c = Correlator::new();
    assert!(c.handle_event(&event(DIR_TX, 1, 1, 1, b"just some bytes"), 0).is_none());
    assert!(c.handle_event(&event(DIR_RX, 1, 1, 1, &[0x00, 0x01, 0x02, 0xfe]), 0).is_none());
}

#[test]
fn accept_is_emitted_and_correlates_later_traffic() {
    let mut c = Correlator::new();
    let mut ev = event(DIR_ACCEPT, 1, 7, 0, b"");
    ev.saddr = u32::from_le_bytes([192, 168, 0, 2]);
    ev.daddr = u32::from_le_bytes([192, 168, 0, 9]);
    ev.sport = 8080u16.swap_bytes();
    ev.dport = 51000u16.swap_bytes();
    let rec = c.handle_event(&ev, 0).unwrap();
    assert_eq!(rec.direction, DIR_ACCEPT);
    assert_eq!(rec.saddr, u32::from_be_bytes([192, 168, 0, 2]));
    assert_eq!(rec.sport, 8080);
    assert_eq!(rec.dport, 51000);
    // A later TX on the same (cgroup, fd=0) takes the stored tuple.
    let rec = c.handle_event(&event(DIR_TX, 1, 7, 0, b"HTTP/1.1 200 OK\r\n"), 3).unwrap();
    assert_eq!(rec.saddr, u32::from_be_bytes([192, 168, 0, 2]));
    assert_eq!(rec.dport, 51000);
}

#[test]
fn noise_chatter_is_dropped() {
    let mut c = Correlator::new();
    // Recognizable HTTP, but the agent's own name occurs: dropped.
    let ev = event(DIR_TX, 1, 1, 5, b"GET / HTTP/1.1\r\nUser-Agent: masdeepflow\r\n\r\n");
    assert!(c.handle_event(&ev, 0).is_none());
    // Container-runtime version probe: dropped by the prefix rule.
    let ev = event(DIR_TX, 1, 1, 5, b"GET /v1.24/containers/json HTTP/1.1\r\n\r\n");
    assert!(c.handle_event(&ev, 0).is_none());
    // Log-driver chatter: dropped.
    let ev = event(DIR_TX, 1, 1, 5, b"{\"log\":\"hello\"}");
    assert!(c.handle_event(&ev, 0).is_none());
    // SandboxID / Bridge / container paths: dropped.
    assert!(c.handle_event(&event(DIR_TX, 1, 1, 5, b"HTTP/1.1 200 OK\r\n{\"SandboxID\":\"x\"}"), 0).is_none());
    assert!(c.handle_event(&event(DIR_TX, 1, 1, 5, b"HTTP/1.1 200 OK\r\n{\"Bridge\":\"b\"}"), 0).is_none());
    assert!(c.handle_event(&event(DIR_TX, 1, 1, 5, b"POST /containers/abc/start HTTP/1.1\r\n"), 0).is_none());
}

#[test]
fn fd_reuse_overwrites_stored_connection() {
    let mut c = Correlator::new();
    let mut ev = event(DIR_CONNECT, 1, 1, 4, b"");
    ev.daddr = u32::from_le_bytes([1, 1, 1, 1]);
    ev.dport = 80u16.swap_bytes();
    c.handle_event(&ev, 0);
    let mut ev = event(DIR_CONNECT, 1, 1, 4, b"");
    ev.daddr = u32::from_le_bytes([8, 8, 8, 8]);
    ev.dport = 443u16.swap_bytes();
    c.handle_event(&ev, 1);
    let rec = c.handle_event(&event(DIR_TX, 1, 1, 4, b"GET / HTTP/1.1\r\n"), 2).unwrap();
    assert_eq!(rec.daddr, u32::from_be_bytes([8, 8, 8, 8]));
    assert_eq!(rec.dport, 443);
}

#[test]
fn missing_ip_info_still_reports_destination() {
    let mut c = Correlator::new();
    let mut ev = event(DIR_CONNECT, 1, 1, 4, b"");
    ev.daddr = u32::from_le_bytes([1, 1, 1, 1]);
    ev.dport = 80u16.swap_bytes();
    c.handle_event(&ev, 0);
    let rec = c.handle_event(&event(DIR_TX, 1, 1, 4, b"GET / HTTP/1.1\r\n"), 1).unwrap();
    assert_eq!(rec.saddr, 0);
    assert_eq!(rec.daddr, u32::from_be_bytes([1, 1, 1, 1]));
    assert_eq!(rec.dport, 80);
}

#[test]
fn l7_scan_recognizes_methods_and_responses() {
    let scan = l7_scan(&payload_of(b"POST /api HTTP/1.1\r\n"), 20, 0, 0, DIR_TX);
    assert_eq!(scan.l7, Some(L7::HttpRequest(b"POST /api HTTP/1.1".to_vec())));
    assert!(!scan.noisy);
    let scan = l7_scan(&payload_of(b"DELETE /x HTTP/1.1\r\n"), 20, 0, 0, DIR_TX);
    assert_eq!(scan.l7, Some(L7::HttpRequest(b"DELETE /x HTTP/1.1".to_vec())));
    let scan = l7_scan(&payload_of(b"HEAD / HTTP/1.1\r\n"), 17, 0, 0, DIR_TX);
    assert_eq!(scan.l7, Some(L7::HttpRequest(b"HEAD / HTTP/1.1".to_vec())));
    let scan = l7_scan(&payload_of(b"PUT /y HTTP/1.1\r\n"), 17, 0, 0, DIR_TX);
    assert_eq!(scan.l7, Some(L7::HttpRequest(b"PUT /y HTTP/1.1".to_vec())));
    // Empty payload yields nothing.
    let scan = l7_scan(&payload_of(b""), 0, 0, 0, DIR_TX);
    assert!(scan.l7.is_none());
    assert!(!scan.noisy);
    // Invalid UTF-8 yields nothing and is never noise.
    let scan = l7_scan(&payload_of(&[0x47, 0x45, 0x54, 0x20, 0xc0, 0x80]), 6, 0, 0, DIR_TX);
    assert!(scan.l7.is_none());
    assert!(!scan.noisy);
}

#[test]
fn l7_scan_mysql_direction_depends_on_port_side() {
    // Server side: port 3306 is the source; an incoming RX is a request.
    let mut query = vec![0x05u8, 0x00, 0x00, 0x00, 0x03];
    query.extend_from_slice(b"SELECT 2;");
    let scan = l7_scan(&payload_of(&query), query.len() as u32, 3306, 51000, DIR_RX);
    assert_eq!(scan.l7, Some(L7::MysqlQuery(b"SELECT 2;".to_vec())));
    // And the server's TX is a response.
    let scan = l7_scan(&payload_of(&[0x01, 0x00, 0x00, 0x01, 0x00]), 5, 3306, 51000, DIR_TX);
    assert_eq!(scan.l7, Some(L7::MysqlOk));
    // A non-query, non-head packet on 3306 yields nothing.
    let scan = l7_scan(&payload_of(&[0x01, 0x00, 0x00, 0x02, 0x1c]), 5, 0, 3306, DIR_TX);
    assert!(scan.l7.is_none());
}

#[test]
fn utf8_validation_matches_the_standard_ranges() {
    assert!(utf8_valid(b"plain ascii"));
    assert!(utf8_valid(&[0xc3, 0xa9]));
    assert!(utf8_valid(&[0xe2, 0x82, 0xac]));
    assert!(utf8_valid(&[0xf0, 0x9f, 0x92, 0xa9]));
    assert!(!utf8_valid(&[0xc0, 0x80]));
    assert!(!utf8_valid(&[0xed, 0xa0, 0x80]));
    assert!(!utf8_valid(&[0xf4, 0x90, 0x80, 0x80]));
    assert!(!utf8_valid(&[0xff]));
    assert!(!utf8_valid(&[0xc3]));
    assert_eq!(utf8_valid(b"ok"), std::str::from_utf8(b"ok").is_ok());
    let samples: [&[u8]; 4] = [&[0x80], &[0xe0, 0x80, 0x80], &[0xf0, 0x80, 0x80, 0x80], b"mixed \xc3\xa9 text"];
    for s in samples {
        assert_eq!(utf8_valid(s), std::str::from_utf8(s).is_ok());
    }
}

#[test]
fn process_event_wire_round_trip() {
    let mut comm = [0u8; 16];
    comm[..5].copy_from_slice(b"nginx");
    let e = ProcessEvent { pid: 4321, cgroup_id: 0xdead_beef_0012_3456, comm };
    let bytes = encode_process_event(&e);
    assert_eq!(bytes.len(), PROCESS_EVENT_BYTES);
    let d = decode_process_event(&bytes).unwrap();
    assert_eq!(d.pid, e.pid);
    assert_eq!(d.cgroup_id, e.cgroup_id);
    assert_eq!(d.comm, e.comm);
    assert!(decode_process_event(&bytes[..31]).is_none());
}

#[test]
fn tcp_event_wire_round_trip() {
    let mut e = event(DIR_TX, 77, 0x1122_3344_5566_7788, 9, b"GET / HTTP/1.1\r\n");
    e.saddr = 0x0a000005;
    e.daddr = 0x01010101;
    e.sport = 54321;
    e.dport = 80;
    e.data_len = 4096;
    let bytes = encode_tcp_event(&e);
    assert_eq!(bytes.len(), TCP_EVENT_BYTES);
    let d = decode_tcp_event(&bytes).unwrap();
    assert_eq!(d.pid, e.pid);
    assert_eq!(d.fd, e.fd);
    assert_eq!(d.cgroup_id, e.cgroup_id);
    assert_eq!(d.saddr, e.saddr);
    assert_eq!(d.daddr, e.daddr);
    assert_eq!(d.sport, e.sport);
    assert_eq!(d.dport, e.dport);
    assert_eq!(d.family, e.family);
    assert_eq!(d.direction, e.direction);
    assert_eq!(d.data_len, e.data_len);
    assert_eq!(d.payload[..], e.payload[..]);
    assert!(decode_tcp_event(&bytes[..100]).is_none());
    // Field offsets are fixed: pid little-endian at 0, direction at 30.
    assert_eq!(&bytes[0..4], &77u32.to_le_bytes());
    assert_eq!(bytes[30], DIR_TX);
}

#[test]
fn pod_resolution_partitions_by_residue() {
    assert_eq!(resolve_pod(0), "frontend-pod-1");
    assert_eq!(resolve_pod(1), "backend-service-2");
    assert_eq!(resolve_pod(2), "unknown-pod");
    assert_eq!(resolve_pod(3), "frontend-pod-1");
    assert_eq!(resolve_pod(1000), "backend-service-2");
}

#[test]
fn direction_labels_match_the_emitter() {
    assert_eq!(direction_label(DIR_CONNECT), "CONNECT");
    assert_eq!(direction_label(DIR_ACCEPT), "ACCEPT");
    assert_eq!(direction_label(DIR_TX), "TX");
    assert_eq!(direction_label(DIR_RX), "RX");
    assert_eq!(direction_label(DIR_IP_INFO), "RX");
}

#[test]
fn emit_record_type_is_plain_data() {
    let rec = EmitRecord {
        direction: DIR_TX,
        pid: 1,
        cgroup_id: 2,
        saddr: 3,
        daddr: 4,
        sport: 5,
        dport: 6,
        l7: None,
        latency_ms: None,
    };
    assert_eq!(rec.clone(), rec);
}

#[test]
fn rapid_second_connect_rebinds_pending_link() {
    let mut c = Correlator::new();
    // Two connects from one pid on different descriptors; the IP_INFO
    // that follows binds to the most recent one.
    let mut first = event(DIR_CONNECT, 9, 1, 4, b"");
    first.daddr = u32::from_le_bytes([1, 1, 1, 1]);
    first.dport = 80u16.swap_bytes();
    c.handle_event(&first, 0);
    let mut second = event(DIR_CONNECT, 9, 1, 7, b"");
    second.daddr = u32::from_le_bytes([8, 8, 8, 8]);
    second.dport = 443u16.swap_bytes();
    c.handle_event(&second, 1);
    let mut detail = event(DIR_IP_INFO, 9, 1, 0, b"");
    detail.saddr = u32::from_le_bytes([10, 0, 0, 5]);
    detail.sport = 40000u16.swap_bytes();
    c.handle_event(&detail, 2);
    // Traffic on the second descriptor carries the completed tuple.
    let rec = c.handle_event(&event(DIR_TX, 9, 1, 7, b"GET / HTTP/1.1\r\n"), 3).unwrap();
    assert_eq!(rec.saddr, u32::from_be_bytes([10, 0, 0, 5]));
    assert_eq!(rec.sport, 40000);
    assert_eq!(rec.dport, 443);
    // The first descriptor's source fields stay unknown.
    let rec = c.handle_event(&event(DIR_TX, 9, 1, 4, b"GET / HTTP/1.1\r\n"), 4).unwrap();
    assert_eq!(rec.saddr, 0);
    assert_eq!(rec.dport, 80);
}

#[test]
fn ip_info_without_pending_link_changes_nothing() {
    let mut c = Correlator::new();
    let mut detail = event(DIR_IP_INFO, 9, 1, 0, b"");
    detail.saddr = u32::from_le_bytes([10, 0, 0, 5]);
    assert!(c.handle_event(&detail, 0).is_none());
    assert!(c.handle_event(&event(DIR_TX, 9, 1, 4, b"plain"), 1).is_none());
}
