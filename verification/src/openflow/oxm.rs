//! OpenFlow Extensible Match (OXM) encoding.
//!
//! OXM is used in OpenFlow 1.2+ for flexible match field encoding.
use vstd::prelude::*;

verus! {

/// OXM class identifiers.
#[derive(Debug, Clone, Copy, PartialEq, Eq, Structural)]
pub enum OxmClass {
    /// Basic OpenFlow match fields
    OpenflowBasic,
    /// Experimenter match fields
    Experimenter,
    /// Nicira extensions
    Nxm0,
    /// Nicira extensions (class 1)
    Nxm1,
}

/// The wire value of each OXM class.
pub open spec fn class_value(c: OxmClass) -> u16 {
    match c {
        OxmClass::OpenflowBasic => 0x8000,
        OxmClass::Experimenter => 0xffff,
        OxmClass::Nxm0 => 0x0000,
        OxmClass::Nxm1 => 0x0001,
    }
}

impl OxmClass {
    /// The wire value of this class.
    pub fn value(self) -> (r: u16)
        ensures
            r == class_value(self),
    {
        match self {
            OxmClass::OpenflowBasic => 0x8000,
            OxmClass::Experimenter => 0xffff,
            OxmClass::Nxm0 => 0x0000,
            OxmClass::Nxm1 => 0x0001,
        }
    }
}

/// OXM field identifiers for OpenFlow Basic class.
#[derive(Debug, Clone, Copy, PartialEq, Eq, Structural)]
pub enum OxmField {
    /// Input port
    InPort,
    /// Physical input port
    InPhyPort,
    /// Metadata
    Metadata,
    /// Ethernet destination
    EthDst,
    /// Ethernet source
    EthSrc,
    /// Ethernet type
    EthType,
    /// VLAN ID
    VlanVid,
    /// VLAN PCP
    VlanPcp,
    /// IP DSCP
    IpDscp,
    /// IP ECN
    IpEcn,
    /// IP protocol
    IpProto,
    /// IPv4 source
    Ipv4Src,
    /// IPv4 destination
    Ipv4Dst,
    /// TCP source port
    TcpSrc,
    /// TCP destination port
    TcpDst,
    /// UDP source port
    UdpSrc,
    /// UDP destination port
    UdpDst,
    /// SCTP source port
    SctpSrc,
    /// SCTP destination port
    SctpDst,
    /// ICMP type
    Icmpv4Type,
    /// ICMP code
    Icmpv4Code,
    /// ARP opcode
    ArpOp,
    /// ARP source IPv4
    ArpSpa,
    /// ARP target IPv4
    ArpTpa,
    /// ARP source MAC
    ArpSha,
    /// ARP target MAC
    ArpTha,
    /// IPv6 source
    Ipv6Src,
    /// IPv6 destination
    Ipv6Dst,
    /// IPv6 flow label
    Ipv6Flabel,
    /// ICMPv6 type
    Icmpv6Type,
    /// ICMPv6 code
    Icmpv6Code,
    /// Tunnel ID
    TunnelId,
}

/// The field number of each basic OXM field.
pub open spec fn field_value(f: OxmField) -> u8 {
    match f {
        OxmField::InPort => 0,
        OxmField::InPhyPort => 1,
        OxmField::Metadata => 2,
        OxmField::EthDst => 3,
        OxmField::EthSrc => 4,
        OxmField::EthType => 5,
        OxmField::VlanVid => 6,
        OxmField::VlanPcp => 7,
        OxmField::IpDscp => 8,
        OxmField::IpEcn => 9,
        OxmField::IpProto => 10,
        OxmField::Ipv4Src => 11,
        OxmField::Ipv4Dst => 12,
        OxmField::TcpSrc => 13,
        OxmField::TcpDst => 14,
        OxmField::UdpSrc => 15,
        OxmField::UdpDst => 16,
        OxmField::SctpSrc => 17,
        OxmField::SctpDst => 18,
        OxmField::Icmpv4Type => 19,
        OxmField::Icmpv4Code => 20,
        OxmField::ArpOp => 21,
        OxmField::ArpSpa => 22,
        OxmField::ArpTpa => 23,
        OxmField::ArpSha => 24,
        OxmField::ArpTha => 25,
        OxmField::Ipv6Src => 26,
        OxmField::Ipv6Dst => 27,
        OxmField::Ipv6Flabel => 28,
        OxmField::Icmpv6Type => 29,
        OxmField::Icmpv6Code => 30,
        OxmField::TunnelId => 38,
    }
}

impl OxmField {
    /// The field number of this field.
    pub fn value(self) -> (r: u8)
        ensures
            r == field_value(self),
            r < 128,
    {
        match self {
            OxmField::InPort => 0,
            OxmField::InPhyPort => 1,
            OxmField::Metadata => 2,
            OxmField::EthDst => 3,
            OxmField::EthSrc => 4,
            OxmField::EthType => 5,
            OxmField::VlanVid => 6,
            OxmField::VlanPcp => 7,
            OxmField::IpDscp => 8,
            OxmField::IpEcn => 9,
            OxmField::IpProto => 10,
            OxmField::Ipv4Src => 11,
            OxmField::Ipv4Dst => 12,
            OxmField::TcpSrc => 13,
            OxmField::TcpDst => 14,
            OxmField::UdpSrc => 15,
            OxmField::UdpDst => 16,
            OxmField::SctpSrc => 17,
            OxmField::SctpDst => 18,
            OxmField::Icmpv4Type => 19,
            OxmField::Icmpv4Code => 20,
            OxmField::ArpOp => 21,
            OxmField::ArpSpa => 22,
            OxmField::ArpTpa => 23,
            OxmField::ArpSha => 24,
            OxmField::ArpTha => 25,
            OxmField::Ipv6Src => 26,
            OxmField::Ipv6Dst => 27,
            OxmField::Ipv6Flabel => 28,
            OxmField::Icmpv6Type => 29,
            OxmField::Icmpv6Code => 30,
            OxmField::TunnelId => 38,
        }
    }
}

/// The OXM header layout: class in the top 16 bits, then the field number
/// (7 bits), the has-mask bit, and the payload length (8 bits).
pub open spec fn spec_oxm_header(class: OxmClass, field: OxmField, has_mask: bool, length: u8) -> u32 {
    ((class_value(class) as u32) << 16u32) | (((field_value(field) as u32) << 1u32) << 8u32)
        | ((if has_mask { 1u32 } else { 0u32 }) << 8u32) | (length as u32)
}

/// Build an OXM header.
///
/// Format: class (16 bits) | field (7 bits) | hasmask (1 bit) | length (8 bits)
pub fn oxm_header(class: OxmClass, field: OxmField, has_mask: bool, length: u8) -> (r: u32)
    ensures
        r == spec_oxm_header(class, field, has_mask, length),
        r == class_value(class) as u32 * 0x1_0000 + field_value(field) as u32 * 0x200
            + (if has_mask { 0x100u32 } else { 0u32 }) + length as u32,
{
    let class_val = class.value() as u32;
    let field_val = (field.value() as u32) << 1u32;
    let mask_val: u32 = if has_mask { 1 } else { 0 };
    let len_val = length as u32;
    let r = (class_val << 16u32) | (field_val << 8u32) | (mask_val << 8u32) | len_val;
    let f = field.value() as u32;
    assert(r == class_val * 0x1_0000 + f * 0x200 + mask_val * 0x100 + len_val) by (bit_vector)
        requires
            class_val < 0x1_0000,
            f < 128,
            field_val == f << 1u32,
            mask_val < 2,
            len_val < 256,
            r == (class_val << 16u32) | (field_val << 8u32) | (mask_val << 8u32) | len_val,
    ;
    r
}

} // verus!
