use vstd::prelude::*;
use vstd::slice::slice_subrange;

use crate::addrfmt::{ipv4_addr_seq, ipv4_addr_string, ipv6_addr_seq, ipv6_addr_string};
use crate::decode::{
    be32, decode_from_ethernet, decode_from_ip, decode_icmp_embedded, dhip_device_text,
    dhip_parse, dns_first_question, dns_parse, icmp_embedded_transport, lax_eth_decode,
    lax_ip_decode, ntp_parse_ok, ntp_parses, read_transport, read_transport_spec,
};
use crate::flags::{tcp_flags_as_string, tcp_flags_seq};
use crate::record::{PacketStats, RecordView};
use crate::types::{FrameData, FrameView, Ipv4Info, Ipv6Info, LaxMeta, NetInfo, TransportInfo, UdpInfo};

verus! {

/// The ICMPv4 type byte of a "destination unreachable" message.
pub const ICMP_TYPE_DEST_UNREACH: u8 = 3;

/// The error counter after one more decode failure.
pub open spec fn plus1(e: i64) -> i64 {
    (e + 1) as i64
}

/// The sanitized form of a discovery-protocol payload: every byte outside
/// printable ASCII (32 to 127 inclusive) replaced by a space.
pub open spec fn sanitize_seq(b: Seq<u8>) -> Seq<u8> {
    b.map_values(|x: u8| if x < 32 || x > 127 { 32u8 } else { x })
}

/// The fixed 8-byte discovery-protocol marker: four spaces then "DHIP".
pub open spec fn dhip_marker() -> Seq<u8> {
    seq![32u8, 32u8, 32u8, 32u8, 68u8, 72u8, 73u8, 80u8]
}

/// Whether a sanitized payload begins with the discovery-protocol marker.
pub open spec fn dhip_marker_present(s: Seq<u8>) -> bool {
    s.len() >= 8 && s.subrange(0, 8) == dhip_marker()
}

/// The record after the IPv4 header fields are taken over.
pub open spec fn with_ipv4(s: RecordView, ip: Ipv4Info) -> RecordView {
    RecordView {
        col_protocol: Some("IPv4"@),
        frame_len: Some(ip.total_len as u32),
        ip_id: ip.identification,
        ip_total_len: ip.total_len,
        ip_src: Some(ipv4_addr_seq(ip.source)),
        ip_src_raw: be32(ip.source),
        ip_dst: Some(ipv4_addr_seq(ip.destination)),
        col_source: Some(ipv4_addr_seq(ip.source)),
        col_destination: Some(ipv4_addr_seq(ip.destination)),
        ip_ttl: Some(ip.ttl),
        ip_proto: ip.protocol,
        more_fragments: ip.more_fragments,
        ip_frag_offset: ip.fragment_offset,
        ..s
    }
}

/// The record after the IPv6 header fields are taken over; the frame length
/// estimate is the payload length plus the fixed 40-byte header.
pub open spec fn with_ipv6(s: RecordView, ip: Ipv6Info) -> RecordView {
    RecordView {
        col_protocol: Some("IPv6"@),
        frame_len: Some((ip.payload_length + 40) as u32),
        ip_src: Some(ipv6_addr_seq(ip.source)),
        ip_dst: Some(ipv6_addr_seq(ip.destination)),
        col_source: Some(ipv6_addr_seq(ip.source)),
        col_destination: Some(ipv6_addr_seq(ip.destination)),
        ip_ttl: Some(ip.hop_limit),
        ip_proto: ip.next_header,
        ..s
    }
}

/// The record after the application step of a DNS payload: the first
/// question's name (the root mapped to the `<Root>` sentinel) and type when
/// the message decodes, one more error when the payload is shorter than a
/// minimal DNS header.
pub open spec fn dns_step(s: RecordView, payload: Seq<u8>) -> RecordView {
    if payload.len() >= 12 {
        match dns_first_question(payload) {
            Some(q) => RecordView {
                dns_qry_name: Some(if q.root { "<Root>"@ } else { q.name }),
                dns_qry_type: Some(q.qtype),
                ..s
            },
            None => s,
        }
    } else {
        RecordView { errors: plus1(s.errors), ..s }
    }
}

/// The record after the application step of an NTP payload: nothing on a
/// strict decode, the private-mode request code at offset 3 when the first
/// byte's version field says 2, one more error otherwise.
pub open spec fn ntp_step(s: RecordView, payload: Seq<u8>) -> RecordView {
    if ntp_parses(payload) {
        s
    } else if payload.len() >= 4 && (payload[0] >> 3) & 7 == 2 {
        RecordView { ntp_priv_reqcode: Some(payload[3]), ..s }
    } else {
        RecordView { errors: plus1(s.errors), ..s }
    }
}

/// The record after the application step of a discovery-protocol payload:
/// when the sanitized text carries the marker, the device type read from the
/// structured text at offset 32, and one more error when that text is
/// missing or does not parse.
pub open spec fn dhip_step(s: RecordView, payload: Seq<u8>) -> RecordView {
    let san = sanitize_seq(payload);
    if dhip_marker_present(san) {
        if san.len() >= 32 {
            match dhip_device_text(san.skip(32)) {
                Some(d) => RecordView { dhip_device: Some(d), ..s },
                None => RecordView { errors: plus1(s.errors), ..s },
            }
        } else {
            RecordView { errors: plus1(s.errors), ..s }
        }
    } else {
        s
    }
}

/// The record after a UDP header and its application dispatch by well-known
/// port (53 DNS, 123 NTP, source 37810 discovery).
pub open spec fn udp_spec(s: RecordView, u: UdpInfo, payload: Seq<u8>) -> RecordView {
    let s1 = RecordView {
        col_protocol: Some("UDP"@),
        udp_srcport: Some(u.source_port),
        udp_dstport: Some(u.destination_port),
        udp_length: Some(u.length),
        ..s
    };
    if u.source_port == 53 || u.destination_port == 53 {
        dns_step(RecordView { col_protocol: Some("DNS"@), ..s1 }, payload)
    } else if u.source_port == 123 || u.destination_port == 123 {
        ntp_step(RecordView { col_protocol: Some("NTP"@), ..s1 }, payload)
    } else if u.source_port == 37810 {
        dhip_step(RecordView { col_protocol: Some("DHDiscover"@), ..s1 }, payload)
    } else {
        s1
    }
}

/// The record after an ICMPv4 header: the type byte, and for a destination
/// unreachable message the embedded original packet's transport ports (and
/// TCP flag string), with one more error when the embedded packet does not
/// decode.
pub open spec fn icmp_step(s: RecordView, ty: u8, payload: Seq<u8>) -> RecordView {
    let s1 = RecordView { col_protocol: Some("ICMP"@), icmp_type: Some(ty), ..s };
    if ty == ICMP_TYPE_DEST_UNREACH {
        match icmp_embedded_transport(payload) {
            Ok(Some(TransportInfo::Udp(u))) => RecordView {
                udp_srcport: Some(u.source_port),
                udp_dstport: Some(u.destination_port),
                ..s1
            },
            Ok(Some(TransportInfo::Tcp(t))) => RecordView {
                tcp_srcport: Some(t.source_port),
                tcp_dstport: Some(t.destination_port),
                tcp_flags: Some(tcp_flags_seq(t)),
                ..s1
            },
            Ok(_) => s1,
            Err(_) => RecordView { errors: plus1(s1.errors), ..s1 },
        }
    } else {
        s1
    }
}

/// The record after the transport layer dispatch.
pub open spec fn transport_spec(
    s: RecordView,
    t: Option<TransportInfo>,
    payload: Seq<u8>,
) -> RecordView {
    match t {
        Some(TransportInfo::Udp(u)) => udp_spec(s, u, payload),
        Some(TransportInfo::Tcp(tc)) => RecordView {
            col_protocol: Some("TCP"@),
            tcp_srcport: Some(tc.source_port),
            tcp_dstport: Some(tc.destination_port),
            tcp_flags: Some(tcp_flags_seq(tc)),
            ..s
        },
        Some(TransportInfo::Icmpv4(ty)) => icmp_step(s, ty, payload),
        Some(TransportInfo::Icmpv6) => s,
        None => s,
    }
}

/// The record after one whole pass over decoded headers: link, then network
/// (stopping at a non-first fragment, recovering the transport header of a
/// first fragment by a secondary decode), then transport and application.
pub open spec fn headers_spec(s: RecordView, m: LaxMeta, payload: Seq<u8>) -> RecordView {
    let s0 = RecordView {
        eth_type: if m.eth_type is Some {
            m.eth_type
        } else {
            s.eth_type
        },
        ..s
    };
    match m.net {
        Some(NetInfo::V4(ip)) => {
            let s1 = with_ipv4(s0, ip);
            if ip.fragment_offset > 0 {
                s1
            } else if ip.more_fragments {
                match m.ip_payload_number {
                    Some(n) => match read_transport_spec(n, payload) {
                        Some(tp) => transport_spec(s1, Some(tp.0), tp.1),
                        None => transport_spec(
                            RecordView { errors: plus1(s1.errors), ..s1 },
                            m.transport,
                            payload,
                        ),
                    },
                    None => transport_spec(s1, m.transport, payload),
                }
            } else {
                transport_spec(s1, m.transport, payload)
            }
        },
        Some(NetInfo::V6(ip)) => transport_spec(with_ipv6(s0, ip), m.transport, payload),
        None => transport_spec(s0, m.transport, payload),
    }
}

/// The record after analyzing one frame: decode from the link or network
/// layer, walk the layers on success, count one error on failure, and leave
/// the record alone for frames of no known kind.
pub open spec fn analyze_spec(s: RecordView, f: FrameView) -> RecordView {
    match f {
        FrameView::Link(b) => match lax_eth_decode(b) {
            Some(hp) => headers_spec(s, hp.0, hp.1),
            None => RecordView { errors: plus1(s.errors), ..s },
        },
        FrameView::Ip(b) => match lax_ip_decode(b) {
            Some(hp) => headers_spec(s, hp.0, hp.1),
            None => RecordView { errors: plus1(s.errors), ..s },
        },
        FrameView::Other => s,
    }
}

/// Replaces every byte outside printable ASCII with a space.
pub fn sanitize(payload: &[u8]) -> (v: Vec<u8>)
    ensures
        v@ == sanitize_seq(payload@),
{
    let mut v: Vec<u8> = Vec::new();
    let mut i: usize = 0;
    while i < payload.len()
        invariant
            i <= payload@.len(),
            v@.len() == i,
            forall|j: int| 0 <= j < i ==> v@[j] == sanitize_seq(payload@)[j],
        decreases payload@.len() - i,
    {
        let b = payload[i];
        if b < 32 || b > 127 {
            v.push(32);
        } else {
            v.push(b);
        }
        i = i + 1;
    }
    proof {
        assert(v@ =~= sanitize_seq(payload@));
    }
    v
}

/// Whether a sanitized payload begins with the fixed marker of the
/// discovery protocol.
pub fn has_dhip_marker(v: &Vec<u8>) -> (r: bool)
    ensures
        r == dhip_marker_present(v@),
{
    if v.len() < 8 {
        return false;
    }
    let ok = v[0] == 32 && v[1] == 32 && v[2] == 32 && v[3] == 32 && v[4] == 68 && v[5] == 72
        && v[6] == 73 && v[7] == 80;
    proof {
        let sub = v@.subrange(0, 8);
        assert(sub[0] == v@[0] && sub[1] == v@[1] && sub[2] == v@[2] && sub[3] == v@[3] && sub[4]
            == v@[4] && sub[5] == v@[5] && sub[6] == v@[6] && sub[7] == v@[7]);
        if ok {
            assert(sub =~= dhip_marker());
        }
    }
    ok
}

impl PacketStats {
    /// Analyzes one captured frame, absorbing every decode failure into the
    /// record's error counter.
    pub fn analyze_packet(&mut self, pkt_data: FrameData)
        requires
            old(self)@.errors <= i64::MAX - 2,
        ensures
            final(self)@ == analyze_spec(old(self)@, pkt_data@),
    {
        match pkt_data {
            FrameData::Link(b) => {
                match decode_from_ethernet(b.as_slice()) {
                    Ok(hp) => {
                        self.analyze_packet_headers(hp.0, hp.1);
                    },
                    Err(_) => {
                        self.errors = self.errors + 1;
                    },
                }
            },
            FrameData::Ip(b) => {
                match decode_from_ip(b.as_slice()) {
                    Ok(hp) => {
                        self.analyze_packet_headers(hp.0, hp.1);
                    },
                    Err(_) => {
                        self.errors = self.errors + 1;
                    },
                }
            },
            FrameData::Other => {},
        }
    }

    /// Walks the decoded layers of one frame top to bottom, taking fields
    /// into the record as each layer is understood.
    pub fn analyze_packet_headers(&mut self, meta: LaxMeta, payload: Vec<u8>)
        requires
            old(self)@.errors <= i64::MAX - 2,
        ensures
            final(self)@ == headers_spec(old(self)@, meta, payload@),
    {
        if let Some(et) = meta.eth_type {
            self.eth_type = Some(et);
        }
        match meta.net {
            Some(NetInfo::V4(ip)) => {
                self.apply_ipv4(&ip);
                if ip.fragment_offset > 0 {
                    return ;
                }
                if ip.more_fragments {
                    if let Some(n) = meta.ip_payload_number {
                        match read_transport(n, payload.as_slice()) {
                            Ok(tp) => {
                                self.apply_transport(Some(tp.0), tp.1);
                                return ;
                            },
                            Err(_) => {
                                self.errors = self.errors + 1;
                            },
                        }
                    }
                }
                self.apply_transport(meta.transport, payload);
            },
            Some(NetInfo::V6(ip)) => {
                self.apply_ipv6(&ip);
                self.apply_transport(meta.transport, payload);
            },
            None => {
                self.apply_transport(meta.transport, payload);
            },
        }
    }

    /// Takes the IPv4 header fields into the record.
    fn apply_ipv4(&mut self, ip: &Ipv4Info)
        ensures
            final(self)@ == with_ipv4(old(self)@, *ip),
    {
        self.col_protocol = Some("IPv4".to_owned());
        self.frame_len = Some(ip.total_len as u32);
        self.ip_id = ip.identification;
        self.ip_total_len = ip.total_len;
        self.ip_src = Some(ipv4_addr_string(&ip.source));
        self.ip_src_raw = (ip.source[0] as u32) * 0x1000000 + (ip.source[1] as u32) * 0x10000 + (
        ip.source[2] as u32) * 256 + (ip.source[3] as u32);
        self.ip_dst = Some(ipv4_addr_string(&ip.destination));
        self.col_source = Some(ipv4_addr_string(&ip.source));
        self.col_destination = Some(ipv4_addr_string(&ip.destination));
        self.ip_ttl = Some(ip.ttl);
        self.ip_proto = ip.protocol;
        self.more_fragments = ip.more_fragments;
        self.ip_frag_offset = ip.fragment_offset;
    }

    /// Takes the IPv6 header fields into the record.
    fn apply_ipv6(&mut self, ip: &Ipv6Info)
        ensures
            final(self)@ == with_ipv6(old(self)@, *ip),
    {
        self.col_protocol = Some("IPv6".to_owned());
        self.frame_len = Some(ip.payload_length as u32 + 40);
        self.ip_src = Some(ipv6_addr_string(&ip.source));
        self.ip_dst = Some(ipv6_addr_string(&ip.destination));
        self.col_source = Some(ipv6_addr_string(&ip.source));
        self.col_destination = Some(ipv6_addr_string(&ip.destination));
        self.ip_ttl = Some(ip.hop_limit);
        self.ip_proto = ip.next_header;
    }

    /// Dispatches on the transport header and its application payload.
    fn apply_transport(&mut self, t: Option<TransportInfo>, payload: Vec<u8>)
        requires
            old(self)@.errors <= i64::MAX - 1,
        ensures
            final(self)@ == transport_spec(old(self)@, t, payload@),
    {
        match t {
            Some(TransportInfo::Udp(u)) => {
                self.col_protocol = Some("UDP".to_owned());
                self.udp_srcport = Some(u.source_port);
                self.udp_dstport = Some(u.destination_port);
                self.udp_length = Some(u.length);
                if u.source_port == 53 || u.destination_port == 53 {
                    self.col_protocol = Some("DNS".to_owned());
                    self.apply_dns(payload);
                } else if u.source_port == 123 || u.destination_port == 123 {
                    self.col_protocol = Some("NTP".to_owned());
                    self.apply_ntp(payload);
                } else if u.source_port == 37810 {
                    self.col_protocol = Some("DHDiscover".to_owned());
                    self.apply_dhip(payload);
                }
            },
            Some(TransportInfo::Tcp(tc)) => {
                self.col_protocol = Some("TCP".to_owned());
                self.tcp_srcport = Some(tc.source_port);
                self.tcp_dstport = Some(tc.destination_port);
                self.tcp_flags = Some(tcp_flags_as_string(&tc));
            },
            Some(TransportInfo::Icmpv4(ty)) => {
                self.col_protocol = Some("ICMP".to_owned());
                self.icmp_type = Some(ty);
                if ty == ICMP_TYPE_DEST_UNREACH {
                    match decode_icmp_embedded(payload.as_slice()) {
                        Ok(Some(TransportInfo::Udp(u))) => {
                            self.udp_srcport = Some(u.source_port);
                            self.udp_dstport = Some(u.destination_port);
                        },
                        Ok(Some(TransportInfo::Tcp(tc))) => {
                            self.tcp_srcport = Some(tc.source_port);
                            self.tcp_dstport = Some(tc.destination_port);
                            self.tcp_flags = Some(tcp_flags_as_string(&tc));
                        },
                        Ok(_) => {},
                        Err(_) => {
                            self.errors = self.errors + 1;
                        },
                    }
                }
            },
            Some(TransportInfo::Icmpv6) => {},
            None => {},
        }
    }

    /// The DNS application step on a payload sent to or from port 53.
    fn apply_dns(&mut self, payload: Vec<u8>)
        requires
            old(self)@.errors <= i64::MAX - 1,
        ensures
            final(self)@ == dns_step(old(self)@, payload@),
    {
        match dns_parse(payload.as_slice()) {
            Ok(q_opt) => {
                if let Some(q) = q_opt {
                    if q.root {
                        self.dns_qry_name = Some("<Root>".to_owned());
                    } else {
                        self.dns_qry_name = Some(q.name);
                    }
                    self.dns_qry_type = Some(q.qtype);
                }
            },
            Err(_) => {
                self.errors = self.errors + 1;
            },
        }
    }

    /// The NTP application step on a payload sent to or from port 123.
    fn apply_ntp(&mut self, payload: Vec<u8>)
        requires
            old(self)@.errors <= i64::MAX - 1,
        ensures
            final(self)@ == ntp_step(old(self)@, payload@),
    {
        if !ntp_parse_ok(payload.as_slice()) {
            if payload.len() >= 4 && (payload[0] >> 3) & 7 == 2 {
                self.ntp_priv_reqcode = Some(payload[3]);
            } else {
                self.errors = self.errors + 1;
            }
        }
    }

    /// The discovery-protocol application step on a payload from port 37810.
    fn apply_dhip(&mut self, payload: Vec<u8>)
        requires
            old(self)@.errors <= i64::MAX - 1,
        ensures
            final(self)@ == dhip_step(old(self)@, payload@),
    {
        let san = sanitize(payload.as_slice());
        if has_dhip_marker(&san) {
            if san.len() >= 32 {
                let rest = slice_subrange(san.as_slice(), 32, san.len());
                proof {
                    assert(san@.subrange(32, san@.len() as int) =~= san@.skip(32));
                }
                match dhip_parse(rest) {
                    Some(d) => {
                        self.dhip_device = Some(d);
                    },
                    None => {
                        self.errors = self.errors + 1;
                    },
                }
            } else {
                self.errors = self.errors + 1;
            }
        }
    }
}

} // verus!
