use vstd::prelude::*;

use crate::analyzer::{
    analyze_spec, headers_spec, icmp_step, plus1, udp_spec, ICMP_TYPE_DEST_UNREACH,
};
use crate::decode::{dns_first_question, icmp_embedded_transport, lax_eth_decode, DnsQuestionView};
use crate::flags::tcp_flags_seq;
use crate::record::{empty_record, RecordView};
use crate::types::{FrameView, Ipv4Info, LaxMeta, NetInfo, TcpInfo, TransportInfo, UdpInfo};

verus! {

/// Analysis is a pure function of the record it starts from and the frame:
/// two analyses of identical input give field-for-field identical records.
pub proof fn lemma_analyze_deterministic(
    s: RecordView,
    f: FrameView,
    r1: RecordView,
    r2: RecordView,
)
    requires
        r1 == analyze_spec(s, f),
        r2 == analyze_spec(s, f),
    ensures
        r1 == r2,
{
}

/// When the link header cannot be decoded, analysis of a fresh record gives
/// error counter 1 and leaves every other field empty.
pub proof fn lemma_link_failure_counts_one_error(b: Seq<u8>)
    requires
        lax_eth_decode(b) is None,
    ensures
        analyze_spec(empty_record(), FrameView::Link(b)) == (RecordView {
            errors: 1,
            ..empty_record()
        }),
{
}

/// For an IPv4 fragment with nonzero offset, analysis stops at the network
/// layer: transport and application fields stay empty while the network and
/// fragmentation fields are set.
pub proof fn lemma_nonfirst_fragment_stops(m: LaxMeta, ip: Ipv4Info, payload: Seq<u8>)
    requires
        m.net == Some(NetInfo::V4(ip)),
        ip.fragment_offset > 0,
    ensures
        ({
            let r = headers_spec(empty_record(), m, payload);
            r.udp_srcport is None && r.udp_dstport is None && r.udp_length is None
                && r.tcp_srcport is None && r.tcp_dstport is None && r.tcp_flags is None
                && r.icmp_type is None && r.dns_qry_name is None && r.dns_qry_type is None
                && r.ntp_priv_reqcode is None && r.dhip_device is None && r.ip_src == Some(
                crate::addrfmt::ipv4_addr_seq(ip.source),
            ) && r.ip_dst == Some(crate::addrfmt::ipv4_addr_seq(ip.destination)) && r.ip_proto
                == ip.protocol && r.ip_ttl == Some(ip.ttl) && r.ip_frag_offset
                == ip.fragment_offset && r.more_fragments == ip.more_fragments && r.errors == 0
        }),
{
}

/// A TCP header with SYN and ACK set and every other flag clear formats as
/// exactly `"...A..S."`.
pub proof fn lemma_syn_ack_flag_string(t: TcpInfo)
    requires
        t.syn,
        t.ack,
        !t.cwr,
        !t.ece,
        !t.urg,
        !t.psh,
        !t.rst,
        !t.fin,
    ensures
        tcp_flags_seq(t) == "...A..S."@,
{
    reveal_strlit("...A..S.");
    assert(tcp_flags_seq(t) =~= "...A..S."@);
}

/// A DNS query whose first question is at the root gets the fixed sentinel
/// `<Root>` as its recorded query name.
pub proof fn lemma_root_query_name_sentinel(
    s: RecordView,
    u: UdpInfo,
    payload: Seq<u8>,
    q: DnsQuestionView,
)
    requires
        u.source_port == 53 || u.destination_port == 53,
        payload.len() >= 12,
        dns_first_question(payload) == Some(q),
        q.root,
    ensures
        udp_spec(s, u, payload).dns_qry_name == Some("<Root>"@),
{
}

/// A DNS payload shorter than the minimal DNS header adds exactly one error,
/// leaves the DNS fields as they were, and keeps the protocol label "DNS".
pub proof fn lemma_short_dns_payload(s: RecordView, u: UdpInfo, payload: Seq<u8>)
    requires
        u.source_port == 53 || u.destination_port == 53,
        payload.len() < 12,
    ensures
        udp_spec(s, u, payload).errors == plus1(s.errors),
        udp_spec(s, u, payload).dns_qry_name == s.dns_qry_name,
        udp_spec(s, u, payload).dns_qry_type == s.dns_qry_type,
        udp_spec(s, u, payload).col_protocol == Some("DNS"@),
{
}

/// For a destination unreachable message whose embedded original packet
/// carries a UDP header, the record's UDP ports are those of the embedded
/// packet, while the protocol label stays "ICMP".
pub proof fn lemma_dest_unreachable_embedded_udp(
    s: RecordView,
    ty: u8,
    payload: Seq<u8>,
    u: UdpInfo,
)
    requires
        ty == ICMP_TYPE_DEST_UNREACH,
        icmp_embedded_transport(payload) == Result::<Option<TransportInfo>, ()>::Ok(
            Some(TransportInfo::Udp(u)),
        ),
    ensures
        icmp_step(s, ty, payload).udp_srcport == Some(u.source_port),
        icmp_step(s, ty, payload).udp_dstport == Some(u.destination_port),
        icmp_step(s, ty, payload).col_protocol == Some("ICMP"@),
        icmp_step(s, ty, payload).icmp_type == Some(ty),
{
}

} // verus!
