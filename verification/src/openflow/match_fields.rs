//! OpenFlow match field builder.
use vstd::prelude::*;
use crate::openflow::action::{Ipv4Addr, Ipv6Addr, MacAddr};

verus! {

/// Ethernet type of IPv4.
pub const ETH_TYPE_IP: u16 = 0x0800;

/// IP protocol number of TCP.
pub const IP_PROTO_TCP: u8 = 6;

/// IP protocol number of UDP.
pub const IP_PROTO_UDP: u8 = 17;

/// Match fields for flow matching.
///
/// Uses a builder pattern for ergonomic construction.
#[derive(Debug, Clone)]
pub struct Match {
    /// Input port
    pub in_port: Option<u32>,
    /// Input physical port
    pub in_phy_port: Option<u32>,
    /// Metadata
    pub metadata: Option<u64>,
    /// Metadata mask
    pub metadata_mask: Option<u64>,
    /// Source MAC address
    pub eth_src: Option<MacAddr>,
    /// Source MAC mask
    pub eth_src_mask: Option<MacAddr>,
    /// Destination MAC address
    pub eth_dst: Option<MacAddr>,
    /// Destination MAC mask
    pub eth_dst_mask: Option<MacAddr>,
    /// Ethernet type
    pub eth_type: Option<u16>,
    /// VLAN ID
    pub vlan_vid: Option<u16>,
    /// VLAN PCP
    pub vlan_pcp: Option<u8>,
    /// IPv4 source address
    pub ipv4_src: Option<Ipv4Addr>,
    /// IPv4 source mask (prefix length)
    pub ipv4_src_mask: Option<u8>,
    /// IPv4 destination address
    pub ipv4_dst: Option<Ipv4Addr>,
    /// IPv4 destination mask (prefix length)
    pub ipv4_dst_mask: Option<u8>,
    /// IP protocol
    pub ip_proto: Option<u8>,
    /// IP DSCP
    pub ip_dscp: Option<u8>,
    /// IP ECN
    pub ip_ecn: Option<u8>,
    /// IPv6 source address
    pub ipv6_src: Option<Ipv6Addr>,
    /// IPv6 source mask (prefix length)
    pub ipv6_src_mask: Option<u8>,
    /// IPv6 destination address
    pub ipv6_dst: Option<Ipv6Addr>,
    /// IPv6 destination mask (prefix length)
    pub ipv6_dst_mask: Option<u8>,
    /// IPv6 flow label
    pub ipv6_flabel: Option<u32>,
    /// TCP source port
    pub tcp_src: Option<u16>,
    /// TCP destination port
    pub tcp_dst: Option<u16>,
    /// TCP flags
    pub tcp_flags: Option<u16>,
    /// UDP source port
    pub udp_src: Option<u16>,
    /// UDP destination port
    pub udp_dst: Option<u16>,
    /// ICMP type
    pub icmp_type: Option<u8>,
    /// ICMP code
    pub icmp_code: Option<u8>,
    /// ARP opcode
    pub arp_op: Option<u16>,
    /// ARP source IPv4
    pub arp_spa: Option<Ipv4Addr>,
    /// ARP target IPv4
    pub arp_tpa: Option<Ipv4Addr>,
    /// ARP source MAC
    pub arp_sha: Option<MacAddr>,
    /// ARP target MAC
    pub arp_tha: Option<MacAddr>,
    /// Tunnel ID
    pub tunnel_id: Option<u64>,
}

/// The match with no field set, which matches all packets.
pub open spec fn empty_match() -> Match {
    Match {
        in_port: None,
        in_phy_port: None,
        metadata: None,
        metadata_mask: None,
        eth_src: None,
        eth_src_mask: None,
        eth_dst: None,
        eth_dst_mask: None,
        eth_type: None,
        vlan_vid: None,
        vlan_pcp: None,
        ipv4_src: None,
        ipv4_src_mask: None,
        ipv4_dst: None,
        ipv4_dst_mask: None,
        ip_proto: None,
        ip_dscp: None,
        ip_ecn: None,
        ipv6_src: None,
        ipv6_src_mask: None,
        ipv6_dst: None,
        ipv6_dst_mask: None,
        ipv6_flabel: None,
        tcp_src: None,
        tcp_dst: None,
        tcp_flags: None,
        udp_src: None,
        udp_dst: None,
        icmp_type: None,
        icmp_code: None,
        arp_op: None,
        arp_spa: None,
        arp_tpa: None,
        arp_sha: None,
        arp_tha: None,
        tunnel_id: None,
    }
}

/// Whether none of the fields that select packets by port, address,
/// protocol or tunnel is set.
pub open spec fn match_is_empty(m: Match) -> bool {
    m.in_port is None
    && m.eth_src is None
    && m.eth_dst is None
    && m.eth_type is None
    && m.vlan_vid is None
    && m.ipv4_src is None
    && m.ipv4_dst is None
    && m.ip_proto is None
    && m.tcp_src is None
    && m.tcp_dst is None
    && m.udp_src is None
    && m.udp_dst is None
    && m.tunnel_id is None
}

impl Default for Match {
    fn default() -> (r: Self)
        ensures
            r == empty_match(),
    {
        Match {
            in_port: None,
            in_phy_port: None,
            metadata: None,
            metadata_mask: None,
            eth_src: None,
            eth_src_mask: None,
            eth_dst: None,
            eth_dst_mask: None,
            eth_type: None,
            vlan_vid: None,
            vlan_pcp: None,
            ipv4_src: None,
            ipv4_src_mask: None,
            ipv4_dst: None,
            ipv4_dst_mask: None,
            ip_proto: None,
            ip_dscp: None,
            ip_ecn: None,
            ipv6_src: None,
            ipv6_src_mask: None,
            ipv6_dst: None,
            ipv6_dst_mask: None,
            ipv6_flabel: None,
            tcp_src: None,
            tcp_dst: None,
            tcp_flags: None,
            udp_src: None,
            udp_dst: None,
            icmp_type: None,
            icmp_code: None,
            arp_op: None,
            arp_spa: None,
            arp_tpa: None,
            arp_sha: None,
            arp_tha: None,
            tunnel_id: None,
        }
    }
}

impl Match {
    /// Create a new empty match (matches all packets).
    pub fn new() -> (r: Self)
        ensures
            r == empty_match(),
    {
        Self::default()
    }

    /// Match on input port.
    pub fn in_port(self, port: u32) -> (r: Self)
        ensures
            r == (Match { in_port: Some(port), ..self }),
    {
        let mut s = self;
        s.in_port = Some(port);
        s
    }

    /// Match on source MAC address.
    pub fn eth_src(self, addr: MacAddr) -> (r: Self)
        ensures
            r == (Match { eth_src: Some(addr), ..self }),
    {
        let mut s = self;
        s.eth_src = Some(addr);
        s
    }

    /// Match on destination MAC address.
    pub fn eth_dst(self, addr: MacAddr) -> (r: Self)
        ensures
            r == (Match { eth_dst: Some(addr), ..self }),
    {
        let mut s = self;
        s.eth_dst = Some(addr);
        s
    }

    /// Match on Ethernet type.
    pub fn eth_type(self, etype: u16) -> (r: Self)
        ensures
            r == (Match { eth_type: Some(etype), ..self }),
    {
        let mut s = self;
        s.eth_type = Some(etype);
        s
    }

    /// Match on VLAN ID.
    pub fn vlan_vid(self, vid: u16) -> (r: Self)
        ensures
            r == (Match { vlan_vid: Some(vid), ..self }),
    {
        let mut s = self;
        s.vlan_vid = Some(vid);
        s
    }

    /// Match on IPv4 source address with prefix length; also matches
    /// the IPv4 Ethernet type.
    pub fn ipv4_src(self, addr: Ipv4Addr, prefix_len: u8) -> (r: Self)
        ensures
            r == (Match { eth_type: Some(ETH_TYPE_IP), ipv4_src: Some(addr), ipv4_src_mask: Some(prefix_len), ..self }),
    {
        let mut s = self;
        s.eth_type = Some(ETH_TYPE_IP);
        s.ipv4_src = Some(addr);
        s.ipv4_src_mask = Some(prefix_len);
        s
    }

    /// Match on IPv4 destination address with prefix length; also
    /// matches the IPv4 Ethernet type.
    pub fn ipv4_dst(self, addr: Ipv4Addr, prefix_len: u8) -> (r: Self)
        ensures
            r == (Match { eth_type: Some(ETH_TYPE_IP), ipv4_dst: Some(addr), ipv4_dst_mask: Some(prefix_len), ..self }),
    {
        let mut s = self;
        s.eth_type = Some(ETH_TYPE_IP);
        s.ipv4_dst = Some(addr);
        s.ipv4_dst_mask = Some(prefix_len);
        s
    }

    /// Match on IP protocol.
    pub fn ip_proto(self, proto: u8) -> (r: Self)
        ensures
            r == (Match { ip_proto: Some(proto), ..self }),
    {
        let mut s = self;
        s.ip_proto = Some(proto);
        s
    }

    /// Match on TCP source port; also matches the TCP protocol.
    pub fn tcp_src(self, port: u16) -> (r: Self)
        ensures
            r == (Match { ip_proto: Some(IP_PROTO_TCP), tcp_src: Some(port), ..self }),
    {
        let mut s = self;
        s.ip_proto = Some(IP_PROTO_TCP);
        s.tcp_src = Some(port);
        s
    }

    /// Match on TCP destination port; also matches the TCP protocol.
    pub fn tcp_dst(self, port: u16) -> (r: Self)
        ensures
            r == (Match { ip_proto: Some(IP_PROTO_TCP), tcp_dst: Some(port), ..self }),
    {
        let mut s = self;
        s.ip_proto = Some(IP_PROTO_TCP);
        s.tcp_dst = Some(port);
        s
    }

    /// Match on UDP source port; also matches the UDP protocol.
    pub fn udp_src(self, port: u16) -> (r: Self)
        ensures
            r == (Match { ip_proto: Some(IP_PROTO_UDP), udp_src: Some(port), ..self }),
    {
        let mut s = self;
        s.ip_proto = Some(IP_PROTO_UDP);
        s.udp_src = Some(port);
        s
    }

    /// Match on UDP destination port; also matches the UDP protocol.
    pub fn udp_dst(self, port: u16) -> (r: Self)
        ensures
            r == (Match { ip_proto: Some(IP_PROTO_UDP), udp_dst: Some(port), ..self }),
    {
        let mut s = self;
        s.ip_proto = Some(IP_PROTO_UDP);
        s.udp_dst = Some(port);
        s
    }

    /// Match on tunnel ID.
    pub fn tunnel_id(self, id: u64) -> (r: Self)
        ensures
            r == (Match { tunnel_id: Some(id), ..self }),
    {
        let mut s = self;
        s.tunnel_id = Some(id);
        s
    }

    /// Check if this match is empty (matches all).
    pub fn is_empty(&self) -> (r: bool)
        ensures
            r == match_is_empty(*self),
    {
        self.in_port.is_none()
            && self.eth_src.is_none()
            && self.eth_dst.is_none()
            && self.eth_type.is_none()
            && self.vlan_vid.is_none()
            && self.ipv4_src.is_none()
            && self.ipv4_dst.is_none()
            && self.ip_proto.is_none()
            && self.tcp_src.is_none()
            && self.tcp_dst.is_none()
            && self.udp_src.is_none()
            && self.udp_dst.is_none()
            && self.tunnel_id.is_none()
    }
}

/// A new match is empty: it matches all packets.
pub proof fn lemma_new_match_is_empty()
    ensures
        match_is_empty(empty_match()),
{
}

/// Law: a match is empty only when none of the fields that select packets
/// is set.
pub proof fn lemma_empty_match_sets_nothing(m: Match)
    requires
        match_is_empty(m),
    ensures
        m.in_port is None,
        m.eth_src is None,
        m.eth_dst is None,
        m.eth_type is None,
        m.vlan_vid is None,
        m.ipv4_src is None,
        m.ipv4_dst is None,
        m.ip_proto is None,
        m.tcp_src is None,
        m.tcp_dst is None,
        m.udp_src is None,
        m.udp_dst is None,
        m.tunnel_id is None,
{
}

/// Law: whatever match a builder starts from, the match it returns selects
/// packets by the field it sets, so it is never empty.
pub proof fn lemma_builders_not_empty(m: Match, mac: MacAddr, ip: Ipv4Addr, p32: u32, p16: u16, p8: u8, id: u64)
    ensures
        !match_is_empty(Match { in_port: Some(p32), ..m }),
        !match_is_empty(Match { eth_src: Some(mac), ..m }),
        !match_is_empty(Match { eth_dst: Some(mac), ..m }),
        !match_is_empty(Match { eth_type: Some(p16), ..m }),
        !match_is_empty(Match { vlan_vid: Some(p16), ..m }),
        !match_is_empty(Match { eth_type: Some(ETH_TYPE_IP), ipv4_src: Some(ip), ipv4_src_mask: Some(p8), ..m }),
        !match_is_empty(Match { eth_type: Some(ETH_TYPE_IP), ipv4_dst: Some(ip), ipv4_dst_mask: Some(p8), ..m }),
        !match_is_empty(Match { ip_proto: Some(p8), ..m }),
        !match_is_empty(Match { ip_proto: Some(IP_PROTO_TCP), tcp_src: Some(p16), ..m }),
        !match_is_empty(Match { ip_proto: Some(IP_PROTO_TCP), tcp_dst: Some(p16), ..m }),
        !match_is_empty(Match { ip_proto: Some(IP_PROTO_UDP), udp_src: Some(p16), ..m }),
        !match_is_empty(Match { ip_proto: Some(IP_PROTO_UDP), udp_dst: Some(p16), ..m }),
        !match_is_empty(Match { tunnel_id: Some(id), ..m }),
{
}

} // verus!
