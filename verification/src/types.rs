use vstd::prelude::*;

verus! {

/// One captured frame handed to the analyzer: raw bytes starting either at
/// the Ethernet layer or at the network (IP) layer, or something else that
/// the analyzer ignores.
pub enum FrameData {
    Link(Vec<u8>),
    Ip(Vec<u8>),
    Other,
}

/// Spec-level image of a frame.
pub ghost enum FrameView {
    Link(Seq<u8>),
    Ip(Seq<u8>),
    Other,
}

impl View for FrameData {
    type V = FrameView;

    open spec fn view(&self) -> FrameView {
        match self {
            FrameData::Link(b) => FrameView::Link(b@),
            FrameData::Ip(b) => FrameView::Ip(b@),
            FrameData::Other => FrameView::Other,
        }
    }
}

/// Fields read out of a decoded IPv4 header.
#[derive(Clone, Copy, Debug)]
pub struct Ipv4Info {
    pub identification: u16,
    pub total_len: u16,
    pub ttl: u8,
    pub protocol: u8,
    pub source: [u8; 4],
    pub destination: [u8; 4],
    pub more_fragments: bool,
    pub fragment_offset: u16,
}

/// Fields read out of a decoded IPv6 header.
#[derive(Clone, Copy, Debug)]
pub struct Ipv6Info {
    pub payload_length: u16,
    pub hop_limit: u8,
    pub next_header: u8,
    pub source: [u8; 16],
    pub destination: [u8; 16],
}

/// Network-layer header variants the analyzer understands.
#[derive(Clone, Copy, Debug)]
pub enum NetInfo {
    V4(Ipv4Info),
    V6(Ipv6Info),
}

/// Fields read out of a decoded UDP header.
#[derive(Clone, Copy, Debug)]
pub struct UdpInfo {
    pub source_port: u16,
    pub destination_port: u16,
    pub length: u16,
}

/// Fields read out of a decoded TCP header.
#[derive(Clone, Copy, Debug)]
pub struct TcpInfo {
    pub source_port: u16,
    pub destination_port: u16,
    pub cwr: bool,
    pub ece: bool,
    pub urg: bool,
    pub ack: bool,
    pub psh: bool,
    pub rst: bool,
    pub syn: bool,
    pub fin: bool,
}

/// Transport-layer header variants the analyzer understands.
/// The ICMPv4 variant carries the message's type byte.
#[derive(Clone, Copy, Debug)]
pub enum TransportInfo {
    Udp(UdpInfo),
    Tcp(TcpInfo),
    Icmpv4(u8),
    Icmpv6,
}

/// The header part of a lenient whole-packet decode: everything the decoder
/// recognised, minus the payload bytes which travel beside it.
/// `ip_payload_number` is the declared protocol number of the payload when
/// the decode stopped right after an IP header (as it does for fragments);
/// it is what a secondary transport decode must dispatch on.
#[derive(Clone, Copy, Debug)]
pub struct LaxMeta {
    pub eth_type: Option<u16>,
    pub net: Option<NetInfo>,
    pub transport: Option<TransportInfo>,
    pub ip_payload_number: Option<u8>,
}

} // verus!
