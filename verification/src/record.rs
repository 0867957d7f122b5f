use vstd::prelude::*;

verus! {

/// One normalized record per analyzed frame. Every field belongs to one
/// protocol layer and is populated only when that layer was decoded;
/// absence means "not applicable / not decoded", not zero.
#[derive(Debug, Clone, PartialEq)]
pub struct PacketStats {
    pub frame_time: Option<i64>,
    pub frame_len: Option<u32>,
    pub eth_type: Option<u16>,
    pub ip_src_raw: u32,
    pub ip_id: u16,
    pub more_fragments: bool,
    pub ip_src: Option<String>,
    pub ip_dst: Option<String>,
    pub ip_proto: u8,
    pub ip_ttl: Option<u8>,
    pub ip_frag_offset: u16,
    pub icmp_type: Option<u8>,
    pub udp_length: Option<u16>,
    pub udp_srcport: Option<u16>,
    pub udp_dstport: Option<u16>,
    pub tcp_flags: Option<String>,
    pub tcp_srcport: Option<u16>,
    pub tcp_dstport: Option<u16>,
    pub col_info: Option<String>,
    pub col_source: Option<String>,
    pub col_destination: Option<String>,
    pub col_protocol: Option<String>,
    pub dns_qry_name: Option<String>,
    pub dns_qry_type: Option<u16>,
    pub http_request_uri: Option<String>,
    pub http_host: Option<String>,
    pub http_request_method: Option<String>,
    pub http_user_agent: Option<String>,
    pub http_file_data: Option<String>,
    pub ntp_priv_reqcode: Option<u8>,
    pub dhip_device: Option<String>,
    pub ip_total_len: u16,
    pub errors: i64,
}

/// Spec-level image of a record: strings become character sequences.
pub ghost struct RecordView {
    pub frame_time: Option<i64>,
    pub frame_len: Option<u32>,
    pub eth_type: Option<u16>,
    pub ip_src_raw: u32,
    pub ip_id: u16,
    pub more_fragments: bool,
    pub ip_src: Option<Seq<char>>,
    pub ip_dst: Option<Seq<char>>,
    pub ip_proto: u8,
    pub ip_ttl: Option<u8>,
    pub ip_frag_offset: u16,
    pub icmp_type: Option<u8>,
    pub udp_length: Option<u16>,
    pub udp_srcport: Option<u16>,
    pub udp_dstport: Option<u16>,
    pub tcp_flags: Option<Seq<char>>,
    pub tcp_srcport: Option<u16>,
    pub tcp_dstport: Option<u16>,
    pub col_info: Option<Seq<char>>,
    pub col_source: Option<Seq<char>>,
    pub col_destination: Option<Seq<char>>,
    pub col_protocol: Option<Seq<char>>,
    pub dns_qry_name: Option<Seq<char>>,
    pub dns_qry_type: Option<u16>,
    pub http_request_uri: Option<Seq<char>>,
    pub http_host: Option<Seq<char>>,
    pub http_request_method: Option<Seq<char>>,
    pub http_user_agent: Option<Seq<char>>,
    pub http_file_data: Option<Seq<char>>,
    pub ntp_priv_reqcode: Option<u8>,
    pub dhip_device: Option<Seq<char>>,
    pub ip_total_len: u16,
    pub errors: i64,
}

impl View for PacketStats {
    type V = RecordView;

    open spec fn view(&self) -> RecordView {
        RecordView {
            frame_time: self.frame_time,
            frame_len: self.frame_len,
            eth_type: self.eth_type,
            ip_src_raw: self.ip_src_raw,
            ip_id: self.ip_id,
            more_fragments: self.more_fragments,
            ip_src: self.ip_src.deep_view(),
            ip_dst: self.ip_dst.deep_view(),
            ip_proto: self.ip_proto,
            ip_ttl: self.ip_ttl,
            ip_frag_offset: self.ip_frag_offset,
            icmp_type: self.icmp_type,
            udp_length: self.udp_length,
            udp_srcport: self.udp_srcport,
            udp_dstport: self.udp_dstport,
            tcp_flags: self.tcp_flags.deep_view(),
            tcp_srcport: self.tcp_srcport,
            tcp_dstport: self.tcp_dstport,
            col_info: self.col_info.deep_view(),
            col_source: self.col_source.deep_view(),
            col_destination: self.col_destination.deep_view(),
            col_protocol: self.col_protocol.deep_view(),
            dns_qry_name: self.dns_qry_name.deep_view(),
            dns_qry_type: self.dns_qry_type,
            http_request_uri: self.http_request_uri.deep_view(),
            http_host: self.http_host.deep_view(),
            http_request_method: self.http_request_method.deep_view(),
            http_user_agent: self.http_user_agent.deep_view(),
            http_file_data: self.http_file_data.deep_view(),
            ntp_priv_reqcode: self.ntp_priv_reqcode,
            dhip_device: self.dhip_device.deep_view(),
            ip_total_len: self.ip_total_len,
            errors: self.errors,
        }
    }
}

/// The record every analysis starts from: all optional fields absent, all
/// counters zero.
pub open spec fn empty_record() -> RecordView {
    RecordView {
        frame_time: None,
        frame_len: None,
        eth_type: None,
        ip_src_raw: 0,
        ip_id: 0,
        more_fragments: false,
        ip_src: None,
        ip_dst: None,
        ip_proto: 0,
        ip_ttl: None,
        ip_frag_offset: 0,
        icmp_type: None,
        udp_length: None,
        udp_srcport: None,
        udp_dstport: None,
        tcp_flags: None,
        tcp_srcport: None,
        tcp_dstport: None,
        col_info: None,
        col_source: None,
        col_destination: None,
        col_protocol: None,
        dns_qry_name: None,
        dns_qry_type: None,
        http_request_uri: None,
        http_host: None,
        http_request_method: None,
        http_user_agent: None,
        http_file_data: None,
        ntp_priv_reqcode: None,
        dhip_device: None,
        ip_total_len: 0,
        errors: 0,
    }
}

impl PacketStats {
    /// A fresh, empty record.
    pub fn new() -> (r: PacketStats)
        ensures
            r@ == empty_record(),
    {
        PacketStats {
            frame_time: None,
            frame_len: None,
            eth_type: None,
            ip_src_raw: 0,
            ip_id: 0,
            more_fragments: false,
            ip_src: None,
            ip_dst: None,
            ip_proto: 0,
            ip_ttl: None,
            ip_frag_offset: 0,
            icmp_type: None,
            udp_length: None,
            udp_srcport: None,
            udp_dstport: None,
            tcp_flags: None,
            tcp_srcport: None,
            tcp_dstport: None,
            col_info: None,
            col_source: None,
            col_destination: None,
            col_protocol: None,
            dns_qry_name: None,
            dns_qry_type: None,
            http_request_uri: None,
            http_host: None,
            http_request_method: None,
            http_user_agent: None,
            http_file_data: None,
            ntp_priv_reqcode: None,
            dhip_device: None,
            ip_total_len: 0,
            errors: 0,
        }
    }

    /// Overrides the formatted source address.
    pub fn set_ip_src(&mut self, ip_src: String)
        ensures
            final(self)@ == (RecordView { ip_src: Some(ip_src@), ..old(self)@ }),
    {
        self.ip_src = Some(ip_src);
    }

    /// Records the capture timestamp of the frame.
    pub fn set_frame_time(&mut self, frame_time: i64)
        ensures
            final(self)@ == (RecordView { frame_time: Some(frame_time), ..old(self)@ }),
    {
        self.frame_time = Some(frame_time);
    }
}

} // verus!
