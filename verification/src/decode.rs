use vstd::prelude::*;

use crate::types::{Ipv4Info, Ipv6Info, LaxMeta, NetInfo, TcpInfo, TransportInfo, UdpInfo};

verus! {

// ---------------------------------------------------------------------------
// Outside types that appear in the signatures of the conversion helpers.
// ---------------------------------------------------------------------------

#[verifier::external_type_specification]
#[verifier::external_body]
pub struct ExNetHeaders(etherparse::NetHeaders);

#[verifier::external_type_specification]
#[verifier::external_body]
pub struct ExTransportHeader(etherparse::TransportHeader);

#[verifier::external_type_specification]
#[verifier::external_body]
pub struct ExLaxPacketHeaders<'a>(etherparse::LaxPacketHeaders<'a>);

// ---------------------------------------------------------------------------
// Byte-level spec helpers.
// ---------------------------------------------------------------------------

/// A 16-bit value read big-endian from two bytes.
pub open spec fn be16(hi: u8, lo: u8) -> u16 {
    ((hi as int) * 256 + (lo as int)) as u16
}

/// A 32-bit value read big-endian from four bytes.
pub open spec fn be32(a: [u8; 4]) -> u32 {
    ((a[0] as int) * 0x1000000 + (a[1] as int) * 0x10000 + (a[2] as int) * 256 + (
    a[3] as int)) as u32
}

/// What a UDP header decode yields on a byte slice: the fixed 8-byte header
/// read big-endian and the remaining bytes, or nothing when the slice is
/// shorter than a UDP header.
pub open spec fn udp_parse_spec(b: Seq<u8>) -> Option<(UdpInfo, Seq<u8>)> {
    if b.len() >= 8 {
        Some(
            (
                UdpInfo {
                    source_port: be16(b[0], b[1]),
                    destination_port: be16(b[2], b[3]),
                    length: be16(b[4], b[5]),
                },
                b.skip(8),
            ),
        )
    } else {
        None
    }
}

/// The length in bytes of a TCP header as declared by its data-offset field.
pub open spec fn tcp_header_len(b: Seq<u8>) -> int {
    (b[12] as int) / 16 * 4
}

/// What a TCP header decode yields on a byte slice: ports and flag bits, and
/// the bytes after the declared header length; nothing when the slice is
/// shorter than the minimal or the declared header length, or when the
/// data-offset field is below the minimum.
pub open spec fn tcp_parse_spec(b: Seq<u8>) -> Option<(TcpInfo, Seq<u8>)> {
    if b.len() >= 20 && tcp_header_len(b) >= 20 && b.len() >= tcp_header_len(b) {
        Some(
            (
                TcpInfo {
                    source_port: be16(b[0], b[1]),
                    destination_port: be16(b[2], b[3]),
                    cwr: (b[13] as int) / 128 % 2 == 1,
                    ece: (b[13] as int) / 64 % 2 == 1,
                    urg: (b[13] as int) / 32 % 2 == 1,
                    ack: (b[13] as int) / 16 % 2 == 1,
                    psh: (b[13] as int) / 8 % 2 == 1,
                    rst: (b[13] as int) / 4 % 2 == 1,
                    syn: (b[13] as int) / 2 % 2 == 1,
                    fin: (b[13] as int) % 2 == 1,
                },
                b.skip(tcp_header_len(b)),
            ),
        )
    } else {
        None
    }
}

/// The header length of an ICMPv4 message: 20 bytes for timestamp messages
/// (types 13 and 14 with code 0), 8 bytes otherwise.
pub open spec fn icmpv4_header_len(b: Seq<u8>) -> int {
    if (b[0] == 13 || b[0] == 14) && b[1] == 0 {
        20
    } else {
        8
    }
}

/// What an ICMPv4 decode yields on a byte slice: the type byte and the bytes
/// after the header; nothing when the slice is shorter than 8 bytes, or is a
/// timestamp message whose length is not exactly 20.
pub open spec fn icmpv4_parse_spec(b: Seq<u8>) -> Option<(u8, Seq<u8>)> {
    if b.len() >= 8 && !((b[0] == 13 || b[0] == 14) && b[1] == 0 && b.len() != 20) {
        Some((b[0], b.skip(icmpv4_header_len(b))))
    } else {
        None
    }
}

/// What an ICMPv6 decode yields on a byte slice: the bytes after the fixed
/// 8-byte header; nothing when the slice is shorter than 8 bytes or longer
/// than the largest ICMPv6 message.
pub open spec fn icmpv6_parse_spec(b: Seq<u8>) -> Option<Seq<u8>> {
    if b.len() >= 8 && b.len() <= 0xffff_ffff {
        Some(b.skip(8))
    } else {
        None
    }
}

// ---------------------------------------------------------------------------
// Named results of the whole-packet decoders. Each is a pure function of the
// input bytes alone; stating it in full would amount to restating the outside
// decoder, so only its name and a few plain facts are stated.
// ---------------------------------------------------------------------------

/// What the lenient whole-packet decode yields on bytes that start at the
/// Ethernet layer: recognised headers plus remaining payload, or nothing
/// when even the Ethernet header cannot be read.
pub uninterp spec fn lax_eth_decode(b: Seq<u8>) -> Option<(LaxMeta, Seq<u8>)>;

/// What the lenient whole-packet decode yields on bytes that start at the
/// IP layer.
pub uninterp spec fn lax_ip_decode(b: Seq<u8>) -> Option<(LaxMeta, Seq<u8>)>;

/// What a strict decode of an ICMP error payload as a standalone IP packet
/// yields: the embedded original packet's transport header if the packet
/// decodes at all, `Err` when it does not.
pub uninterp spec fn icmp_embedded_transport(b: Seq<u8>) -> Result<Option<TransportInfo>, ()>;

/// The first question of a DNS message, once the message header was found
/// intact: its owner name in text form, its query type code, and whether the
/// owner name is the root.
pub uninterp spec fn dns_first_question(b: Seq<u8>) -> Option<DnsQuestionView>;

/// Whether the bytes parse as a strict (version 3 or 4) NTP message.
pub uninterp spec fn ntp_parses(b: Seq<u8>) -> bool;

/// The textual form of the device-type entry found under
/// `params.deviceInfo.DeviceType` of a structured-text value, or nothing
/// when the bytes do not parse as such a value.
pub uninterp spec fn dhip_device_text(b: Seq<u8>) -> Option<Seq<char>>;

/// The first question of a DNS message as handed back by the decoder.
pub struct DnsQuestion {
    pub name: String,
    pub qtype: u16,
    pub root: bool,
}

/// Spec-level image of a DNS question.
pub ghost struct DnsQuestionView {
    pub name: Seq<char>,
    pub qtype: u16,
    pub root: bool,
}

impl View for DnsQuestion {
    type V = DnsQuestionView;

    open spec fn view(&self) -> DnsQuestionView {
        DnsQuestionView { name: self.name@, qtype: self.qtype, root: self.root }
    }
}

// ---------------------------------------------------------------------------
// Trusted wrappers around the outside decoders.
// ---------------------------------------------------------------------------

/// Relies on etherparse::LaxPacketHeaders::from_ethernet: it fails exactly
/// when the slice is shorter than the 14-byte Ethernet header, and on
/// success the Ethernet header itself is always present.
#[verifier::external_body]
pub fn decode_from_ethernet(bytes: &[u8]) -> (r: Result<(LaxMeta, Vec<u8>), ()>)
    ensures
        match r {
            Ok(p) => bytes@.len() >= 14 && lax_eth_decode(bytes@) == Some((p.0, p.1@))
                && p.0.eth_type is Some,
            Err(_) => bytes@.len() < 14 && lax_eth_decode(bytes@) is None,
        },
{
    match etherparse::LaxPacketHeaders::from_ethernet(bytes) {
        Ok(h) => Ok(lax_convert(h)),
        Err(_) => Err(()),
    }
}

/// Relies on etherparse::LaxPacketHeaders::from_ip: it fails exactly when
/// the IP header itself cannot be read; no link layer is ever present.
#[verifier::external_body]
pub fn decode_from_ip(bytes: &[u8]) -> (r: Result<(LaxMeta, Vec<u8>), ()>)
    ensures
        match r {
            Ok(p) => lax_ip_decode(bytes@) == Some((p.0, p.1@)) && p.0.eth_type is None,
            Err(_) => lax_ip_decode(bytes@) is None,
        },
{
    match etherparse::LaxPacketHeaders::from_ip(bytes) {
        Ok(h) => Ok(lax_convert(h)),
        Err(_) => Err(()),
    }
}

/// Conversion helper for the two decoders above: moves the decoded header
/// fields and the payload bytes into the crate's own types.
#[verifier::external_body]
fn lax_convert<'a>(h: etherparse::LaxPacketHeaders<'a>) -> (r: (LaxMeta, Vec<u8>)) {
    let eth_type = match &h.link {
        Some(etherparse::LinkHeader::Ethernet2(e)) => Some(e.ether_type.0),
        _ => None,
    };
    let net = match &h.net { Some(n) => conv_net(n), None => None };
    let transport = match &h.transport { Some(t) => conv_transport(t), None => None };
    let (ip_payload_number, payload) = match &h.payload {
        etherparse::LaxPayloadSlice::Ip(p) => (Some(p.ip_number.0), p.payload.to_vec()),
        other => (None, other.slice().to_vec()),
    };
    (LaxMeta { eth_type, net, transport, ip_payload_number }, payload)
}

/// Conversion helper: one arm per network header variant, moving fields only.
#[verifier::external_body]
fn conv_net(n: &etherparse::NetHeaders) -> (r: Option<NetInfo>) {
    match n {
        etherparse::NetHeaders::Ipv4(h, _) => Some(NetInfo::V4(Ipv4Info {
            identification: h.identification, total_len: h.total_len, ttl: h.time_to_live,
            protocol: h.protocol.0, source: h.source, destination: h.destination,
            more_fragments: h.more_fragments, fragment_offset: h.fragment_offset.value() })),
        etherparse::NetHeaders::Ipv6(h, _) => Some(NetInfo::V6(Ipv6Info {
            payload_length: h.payload_length, hop_limit: h.hop_limit,
            next_header: h.next_header.0, source: h.source, destination: h.destination })),
        etherparse::NetHeaders::Arp(_) => None,
    }
}

/// Conversion helper: one arm per transport header variant, moving fields
/// only; the ICMPv4 arm keeps the message's leading type byte, and variants
/// the analysis does not know stay absent.
#[verifier::external_body]
fn conv_transport(t: &etherparse::TransportHeader) -> (r: Option<TransportInfo>) {
    match t {
        etherparse::TransportHeader::Udp(u) => Some(TransportInfo::Udp(UdpInfo {
            source_port: u.source_port, destination_port: u.destination_port, length: u.length })),
        etherparse::TransportHeader::Tcp(x) => Some(TransportInfo::Tcp(TcpInfo {
            source_port: x.source_port, destination_port: x.destination_port, cwr: x.cwr,
            ece: x.ece, urg: x.urg, ack: x.ack, psh: x.psh, rst: x.rst, syn: x.syn, fin: x.fin })),
        etherparse::TransportHeader::Icmpv4(i) => Some(TransportInfo::Icmpv4(i.to_bytes()[0])),
        etherparse::TransportHeader::Icmpv6(_) => Some(TransportInfo::Icmpv6),
        _ => None,
    }
}

/// Relies on etherparse::UdpHeader::from_slice: fails exactly below 8 bytes,
/// otherwise reads the four big-endian fields and returns the rest.
#[verifier::external_body]
pub fn udp_from_slice(b: &[u8]) -> (r: Result<(UdpInfo, Vec<u8>), ()>)
    ensures
        match r {
            Ok(p) => udp_parse_spec(b@) == Some((p.0, p.1@)),
            Err(_) => udp_parse_spec(b@) is None,
        },
{
    match etherparse::UdpHeader::from_slice(b) {
        Ok((h, rest)) => Ok((UdpInfo { source_port: h.source_port,
            destination_port: h.destination_port, length: h.length }, rest.to_vec())),
        Err(_) => Err(()),
    }
}

/// Relies on etherparse::TcpHeader::from_slice: fails exactly when the slice
/// is shorter than 20 bytes, the data offset is below 5 words, or the slice
/// is shorter than the declared header; otherwise reads ports and flag bits
/// and returns the bytes after the declared header.
#[verifier::external_body]
pub fn tcp_from_slice(b: &[u8]) -> (r: Result<(TcpInfo, Vec<u8>), ()>)
    ensures
        match r {
            Ok(p) => tcp_parse_spec(b@) == Some((p.0, p.1@)),
            Err(_) => tcp_parse_spec(b@) is None,
        },
{
    match etherparse::TcpHeader::from_slice(b) {
        Ok((h, rest)) => Ok((TcpInfo { source_port: h.source_port,
            destination_port: h.destination_port, cwr: h.cwr, ece: h.ece, urg: h.urg,
            ack: h.ack, psh: h.psh, rst: h.rst, syn: h.syn, fin: h.fin }, rest.to_vec())),
        Err(_) => Err(()),
    }
}

/// Relies on etherparse::Icmpv4Slice::from_slice: fails exactly below 8
/// bytes or on a timestamp message whose length is not 20; otherwise yields
/// the type byte and the bytes after the type-dependent header.
#[verifier::external_body]
pub fn icmpv4_from_slice(b: &[u8]) -> (r: Result<(u8, Vec<u8>), ()>)
    ensures
        match r {
            Ok(p) => icmpv4_parse_spec(b@) == Some((p.0, p.1@)),
            Err(_) => icmpv4_parse_spec(b@) is None,
        },
{
    match etherparse::Icmpv4Slice::from_slice(b) {
        Ok(s) => Ok((s.type_u8(), s.payload().to_vec())),
        Err(_) => Err(()),
    }
}

/// Relies on etherparse::Icmpv6Slice::from_slice: fails exactly below 8
/// bytes or above the largest ICMPv6 message; otherwise yields the bytes
/// after the fixed 8-byte header.
#[verifier::external_body]
pub fn icmpv6_from_slice(b: &[u8]) -> (r: Result<Vec<u8>, ()>)
    ensures
        match r {
            Ok(p) => icmpv6_parse_spec(b@) == Some(p@),
            Err(_) => icmpv6_parse_spec(b@) is None,
        },
{
    match etherparse::Icmpv6Slice::from_slice(b) {
        Ok(s) => Ok(s.payload().to_vec()),
        Err(_) => Err(()),
    }
}

/// Relies on etherparse::PacketHeaders::from_ip_slice: a strict decode of
/// the bytes as a standalone IP packet, handing out the embedded packet's
/// transport header when there is one.
#[verifier::external_body]
pub fn decode_icmp_embedded(bytes: &[u8]) -> (r: Result<Option<TransportInfo>, ()>)
    ensures
        match r {
            Ok(t) => icmp_embedded_transport(bytes@) == Result::<Option<TransportInfo>, ()>::Ok(t),
            Err(_) => icmp_embedded_transport(bytes@) is Err,
        },
{
    match etherparse::PacketHeaders::from_ip_slice(bytes) {
        Ok(ph) => Ok(ph.transport.as_ref().and_then(conv_transport)),
        Err(_) => Err(()),
    }
}

/// Relies on domain::base::Message::from_octets, which fails exactly when
/// the bytes are shorter than the 12-byte message header, and on
/// Message::first_question with the question's qname and qtype accessors,
/// whose result is a function of the message bytes alone.
#[verifier::external_body]
pub fn dns_parse(b: &[u8]) -> (r: Result<Option<DnsQuestion>, ()>)
    ensures
        r is Ok <==> b@.len() >= 12,
        match r {
            Ok(Some(q)) => dns_first_question(b@) == Some(q@),
            Ok(None) => dns_first_question(b@) is None,
            Err(_) => true,
        },
{
    match domain::base::Message::from_octets(b) {
        Ok(msg) => Ok(msg.first_question().map(|q| DnsQuestion {
            name: q.qname().to_string(), qtype: q.qtype().to_int(),
            root: q.qname().is_root() })),
        Err(_) => Err(()),
    }
}

/// Relies on ntp_parser::parse_ntp: whether the bytes are a strict NTP
/// message is a function of the bytes alone.
#[verifier::external_body]
pub fn ntp_parse_ok(b: &[u8]) -> (r: bool)
    ensures
        r == ntp_parses(b@),
{
    ntp_parser::parse_ntp(b).is_ok()
}

/// Relies on serde_json::from_slice for parsing, and on the value's index
/// and display operations for reading `params.deviceInfo.DeviceType` in
/// textual form; the outcome is a function of the bytes alone.
#[verifier::external_body]
pub fn dhip_parse(b: &[u8]) -> (r: Option<String>)
    ensures
        match r {
            Some(s) => dhip_device_text(b@) == Some(s@),
            None => dhip_device_text(b@) is None,
        },
{
    match serde_json::from_slice::<serde_json::Value>(b) {
        Ok(v) => Some(v["params"]["deviceInfo"]["DeviceType"].to_string()),
        Err(_) => None,
    }
}

// ---------------------------------------------------------------------------
// The secondary transport decode, dispatching on a declared protocol number.
// ---------------------------------------------------------------------------

/// What reinterpreting an IP payload under its declared protocol number
/// yields: a transport header and the remaining payload, or nothing for an
/// unknown protocol number or a slice the transport decoder rejects.
pub open spec fn read_transport_spec(ip_number: u8, b: Seq<u8>) -> Option<(TransportInfo, Seq<u8>)> {
    if ip_number == 1 {
        match icmpv4_parse_spec(b) {
            Some(p) => Some((TransportInfo::Icmpv4(p.0), p.1)),
            None => None,
        }
    } else if ip_number == 58 {
        match icmpv6_parse_spec(b) {
            Some(p) => Some((TransportInfo::Icmpv6, p)),
            None => None,
        }
    } else if ip_number == 17 {
        match udp_parse_spec(b) {
            Some(p) => Some((TransportInfo::Udp(p.0), p.1)),
            None => None,
        }
    } else if ip_number == 6 {
        match tcp_parse_spec(b) {
            Some(p) => Some((TransportInfo::Tcp(p.0), p.1)),
            None => None,
        }
    } else {
        None
    }
}

/// Decodes a byte slice as an IP payload with the given declared protocol
/// number, tolerating truncation by returning an error.
pub fn read_transport(ip_number: u8, payload: &[u8]) -> (r: Result<(TransportInfo, Vec<u8>), ()>)
    ensures
        match r {
            Ok(p) => read_transport_spec(ip_number, payload@) == Some((p.0, p.1@)),
            Err(_) => read_transport_spec(ip_number, payload@) is None,
        },
{
    if ip_number == 1 {
        match icmpv4_from_slice(payload) {
            Ok(p) => Ok((TransportInfo::Icmpv4(p.0), p.1)),
            Err(_) => Err(()),
        }
    } else if ip_number == 58 {
        match icmpv6_from_slice(payload) {
            Ok(p) => Ok((TransportInfo::Icmpv6, p)),
            Err(_) => Err(()),
        }
    } else if ip_number == 17 {
        match udp_from_slice(payload) {
            Ok(p) => Ok((TransportInfo::Udp(p.0), p.1)),
            Err(_) => Err(()),
        }
    } else if ip_number == 6 {
        match tcp_from_slice(payload) {
            Ok(p) => Ok((TransportInfo::Tcp(p.0), p.1)),
            Err(_) => Err(()),
        }
    } else {
        Err(())
    }
}

} // verus!
