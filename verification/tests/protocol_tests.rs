use packetstats::decode::read_transport;
use packetstats::flags::tcp_flags_as_string;
use packetstats::record::PacketStats;
use packetstats::types::{FrameData, TcpInfo, TransportInfo};

fn frame_l2(ethertype: u16, payload: &[u8]) -> Vec<u8> {
    let mut v = vec![
        0x02, 0x00, 0x00, 0x00, 0x00, 0x01, 0x02, 0x00, 0x00, 0x00, 0x00, 0x02,
    ];
    v.push((ethertype >> 8) as u8);
    v.push((ethertype & 0xff) as u8);
    v.extend_from_slice(payload);
    v
}

fn v4_packet(proto: u8, src: [u8; 4], dst: [u8; 4], payload: &[u8]) -> Vec<u8> {
    let total_len = (20 + payload.len()) as u16;
    let mut v = vec![0x45, 0x00];
    v.push((total_len >> 8) as u8);
    v.push((total_len & 0xff) as u8);
    v.extend_from_slice(&[0x00, 0x2a, 0x00, 0x00, 64, proto, 0, 0]);
    v.extend_from_slice(&src);
    v.extend_from_slice(&dst);
    v.extend_from_slice(payload);
    v
}

fn v6_packet(next_header: u8, src: [u8; 16], dst: [u8; 16], payload: &[u8]) -> Vec<u8> {
    let plen = payload.len() as u16;
    let mut v = vec![0x60, 0x00, 0x00, 0x00];
    v.push((plen >> 8) as u8);
    v.push((plen & 0xff) as u8);
    v.push(next_header);
    v.push(64);
    v.extend_from_slice(&src);
    v.extend_from_slice(&dst);
    v.extend_from_slice(payload);
    v
}

fn udp_bytes(sp: u16, dp: u16, payload: &[u8]) -> Vec<u8> {
    let len = (8 + payload.len()) as u16;
    let mut v = Vec::new();
    v.push((sp >> 8) as u8);
    v.push((sp & 0xff) as u8);
    v.push((dp >> 8) as u8);
    v.push((dp & 0xff) as u8);
    v.push((len >> 8) as u8);
    v.push((len & 0xff) as u8);
    v.push(0);
    v.push(0);
    v.extend_from_slice(payload);
    v
}

fn run_l2(bytes: Vec<u8>) -> PacketStats {
    let mut stats = PacketStats::new();
    stats.analyze_packet(FrameData::Link(bytes));
    stats
}

#[test]
fn ntp_v2_private_request_code() {
    // first byte 0x17: version field (bits 3 to 5) equals 2
    let ntp = [0x17, 0x00, 0x00, 42];
    let frame = frame_l2(
        0x0800,
        &v4_packet(17, [10, 0, 0, 1], [10, 0, 0, 2], &udp_bytes(5555, 123, &ntp)),
    );
    let s = run_l2(frame);
    assert_eq!(s.col_protocol, Some(String::from("NTP")));
    assert_eq!(s.ntp_priv_reqcode, Some(42));
    assert_eq!(s.errors, 0);
}

#[test]
fn ntp_strict_decode_sets_no_fields() {
    // leap 0, version 3, mode 3: a full 48-byte header parses strictly
    let mut ntp = vec![0u8; 48];
    ntp[0] = 0x1b;
    let frame = frame_l2(
        0x0800,
        &v4_packet(17, [10, 0, 0, 1], [10, 0, 0, 2], &udp_bytes(123, 5555, &ntp)),
    );
    let s = run_l2(frame);
    assert_eq!(s.col_protocol, Some(String::from("NTP")));
    assert_eq!(s.ntp_priv_reqcode, None);
    assert_eq!(s.errors, 0);
}

#[test]
fn ntp_garbage_counts_error() {
    let ntp = [0xff, 0x01, 0x02];
    let frame = frame_l2(
        0x0800,
        &v4_packet(17, [10, 0, 0, 1], [10, 0, 0, 2], &udp_bytes(5555, 123, &ntp)),
    );
    let s = run_l2(frame);
    assert_eq!(s.col_protocol, Some(String::from("NTP")));
    assert_eq!(s.ntp_priv_reqcode, None);
    assert_eq!(s.errors, 1);
}

#[test]
fn dhip_device_type_extracted() {
    let mut payload = Vec::new();
    payload.extend_from_slice(b"    DHIP");
    payload.extend_from_slice(&[b' '; 24]);
    payload.extend_from_slice(b"{\"params\":{\"deviceInfo\":{\"DeviceType\":\"cam\"}}}");
    let frame = frame_l2(
        0x0800,
        &v4_packet(17, [10, 0, 0, 1], [10, 0, 0, 2], &udp_bytes(37810, 9999, &payload)),
    );
    let s = run_l2(frame);
    assert_eq!(s.col_protocol, Some(String::from("DHDiscover")));
    assert_eq!(s.dhip_device, Some(String::from("\"cam\"")));
    assert_eq!(s.errors, 0);
}

#[test]
fn dhip_nonprintable_bytes_sanitized() {
    // a stray control byte inside the filler must not spoil the decode
    let mut payload = Vec::new();
    payload.extend_from_slice(b"    DHIP");
    payload.extend_from_slice(&[0x00; 24]);
    payload.extend_from_slice(b"{\"params\":{\"deviceInfo\":{\"DeviceType\":\"nvr\"}}}");
    let frame = frame_l2(
        0x0800,
        &v4_packet(17, [10, 0, 0, 1], [10, 0, 0, 2], &udp_bytes(37810, 9999, &payload)),
    );
    let s = run_l2(frame);
    assert_eq!(s.dhip_device, Some(String::from("\"nvr\"")));
}

#[test]
fn dhip_bad_json_counts_error() {
    let mut payload = Vec::new();
    payload.extend_from_slice(b"    DHIP");
    payload.extend_from_slice(&[b' '; 24]);
    payload.extend_from_slice(b"{oops");
    let frame = frame_l2(
        0x0800,
        &v4_packet(17, [10, 0, 0, 1], [10, 0, 0, 2], &udp_bytes(37810, 9999, &payload)),
    );
    let s = run_l2(frame);
    assert_eq!(s.dhip_device, None);
    assert_eq!(s.errors, 1);
}

#[test]
fn dhip_marker_but_short_payload_counts_error() {
    let frame = frame_l2(
        0x0800,
        &v4_packet(17, [10, 0, 0, 1], [10, 0, 0, 2], &udp_bytes(37810, 9999, b"    DHIP")),
    );
    let s = run_l2(frame);
    assert_eq!(s.dhip_device, None);
    assert_eq!(s.errors, 1);
}

#[test]
fn dhip_without_marker_is_quiet() {
    let frame = frame_l2(
        0x0800,
        &v4_packet(17, [10, 0, 0, 1], [10, 0, 0, 2], &udp_bytes(37810, 9999, b"hello")),
    );
    let s = run_l2(frame);
    assert_eq!(s.col_protocol, Some(String::from("DHDiscover")));
    assert_eq!(s.dhip_device, None);
    assert_eq!(s.errors, 0);
}

#[test]
fn udp_unknown_ports_no_app_fields() {
    let frame = frame_l2(
        0x0800,
        &v4_packet(17, [10, 0, 0, 1], [10, 0, 0, 2], &udp_bytes(1000, 2000, &[1, 2, 3])),
    );
    let s = run_l2(frame);
    assert_eq!(s.col_protocol, Some(String::from("UDP")));
    assert_eq!(s.udp_srcport, Some(1000));
    assert_eq!(s.udp_dstport, Some(2000));
    assert_eq!(s.udp_length, Some(11));
    assert_eq!(s.dns_qry_name, None);
    assert_eq!(s.ntp_priv_reqcode, None);
    assert_eq!(s.dhip_device, None);
    assert_eq!(s.errors, 0);
}

#[test]
fn ip_layer_frame_analyzed() {
    let pkt = v4_packet(17, [192, 168, 1, 1], [192, 168, 1, 2], &udp_bytes(1000, 2000, &[]));
    let mut s = PacketStats::new();
    s.analyze_packet(FrameData::Ip(pkt));
    assert_eq!(s.eth_type, None);
    assert_eq!(s.ip_src, Some(String::from("192.168.1.1")));
    assert_eq!(s.ip_dst, Some(String::from("192.168.1.2")));
    assert_eq!(s.col_source, Some(String::from("192.168.1.1")));
    assert_eq!(s.col_destination, Some(String::from("192.168.1.2")));
    assert_eq!(s.udp_srcport, Some(1000));
    assert_eq!(s.errors, 0);
}

#[test]
fn ip_layer_garbage_counts_error() {
    let mut s = PacketStats::new();
    s.analyze_packet(FrameData::Ip(vec![0xff, 0x00]));
    assert_eq!(s.errors, 1);
    assert_eq!(s.ip_src, None);
}

#[test]
fn ipv6_udp_addresses_formatted() {
    let mut src = [0u8; 16];
    src[0] = 0x20;
    src[1] = 0x01;
    src[2] = 0x0d;
    src[3] = 0xb8;
    src[15] = 0x01;
    let mut dst = [0u8; 16];
    dst[15] = 0x02;
    let udp = udp_bytes(1000, 2000, &[1, 2]);
    let frame = frame_l2(0x86dd, &v6_packet(17, src, dst, &udp));
    let s = run_l2(frame);
    assert_eq!(s.eth_type, Some(0x86dd));
    assert_eq!(s.ip_src, Some(String::from("2001:db8:0:0:0:0:0:1")));
    assert_eq!(s.ip_dst, Some(String::from("0:0:0:0:0:0:0:2")));
    assert_eq!(s.col_protocol, Some(String::from("UDP")));
    assert_eq!(s.ip_ttl, Some(64));
    assert_eq!(s.ip_proto, 17);
    // frame length estimate: payload length plus the 40-byte header
    assert_eq!(s.frame_len, Some(10 + 40));
    assert_eq!(s.errors, 0);
}

#[test]
fn read_transport_udp_direct() {
    let bytes = udp_bytes(7, 9, &[0xaa, 0xbb]);
    let r = read_transport(17, &bytes).unwrap();
    match r.0 {
        TransportInfo::Udp(u) => {
            assert_eq!(u.source_port, 7);
            assert_eq!(u.destination_port, 9);
            assert_eq!(u.length, 10);
        }
        _ => panic!("expected a UDP header"),
    }
    assert_eq!(r.1, vec![0xaa, 0xbb]);
}

#[test]
fn read_transport_truncated_udp_fails() {
    assert!(read_transport(17, &[1, 2, 3]).is_err());
}

#[test]
fn read_transport_unknown_protocol_fails() {
    let bytes = udp_bytes(7, 9, &[]);
    assert!(read_transport(200, &bytes).is_err());
}

#[test]
fn tcp_flag_formatter_direct() {
    let t = TcpInfo {
        source_port: 1,
        destination_port: 2,
        cwr: true,
        ece: false,
        urg: false,
        ack: false,
        psh: true,
        rst: false,
        syn: false,
        fin: true,
    };
    assert_eq!(tcp_flags_as_string(&t), String::from("C...P..F"));
}
