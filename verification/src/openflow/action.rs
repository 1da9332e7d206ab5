//! OpenFlow actions and their wire encoding.
use vstd::prelude::*;
use crate::wire::{be16, be32, be64, push_be16, push_be32, push_be64, push_zeros, zeros};
use crate::openflow::learn::{
    encode_learn_specs, specs_bytes, LearnSpec, LearnSpecModel, NxLearn, NxLearnModel,
};
use crate::openflow::port;
use crate::openflow::ct_flags;
use crate::openflow::oxm::OxmField;
use crate::openflow::error::{parse_message, Error};
use crate::text::{decimal, decimal_string};

verus! {

/// MAC address type.
pub type MacAddr = [u8; 6];

/// IPv4 address, as its four octets in network order.
pub type Ipv4Addr = [u8; 4];

/// IPv6 address, as its sixteen octets in network order.
pub type Ipv6Addr = [u8; 16];

/// OpenFlow action type wire values (OF 1.3+).
#[derive(Debug, Clone, Copy, PartialEq, Eq, Structural)]
pub enum ActionType {
    /// Output to switch port
    Output,
    /// Copy TTL out
    CopyTtlOut,
    /// Copy TTL in
    CopyTtlIn,
    /// Set MPLS TTL
    SetMplsTtl,
    /// Decrement MPLS TTL
    DecMplsTtl,
    /// Push VLAN tag
    PushVlan,
    /// Pop VLAN tag
    PopVlan,
    /// Push MPLS label
    PushMpls,
    /// Pop MPLS label
    PopMpls,
    /// Set queue
    SetQueue,
    /// Group action
    Group,
    /// Set IP TTL
    SetNwTtl,
    /// Decrement IP TTL
    DecNwTtl,
    /// Set field using OXM
    SetField,
    /// Push PBB header
    PushPbb,
    /// Pop PBB header
    PopPbb,
    /// Experimenter/vendor action
    Experimenter,
}

/// The wire value of each action type.
pub open spec fn action_type_value(t: ActionType) -> u16 {
    match t {
        ActionType::Output => 0,
        ActionType::CopyTtlOut => 11,
        ActionType::CopyTtlIn => 12,
        ActionType::SetMplsTtl => 15,
        ActionType::DecMplsTtl => 16,
        ActionType::PushVlan => 17,
        ActionType::PopVlan => 18,
        ActionType::PushMpls => 19,
        ActionType::PopMpls => 20,
        ActionType::SetQueue => 21,
        ActionType::Group => 22,
        ActionType::SetNwTtl => 23,
        ActionType::DecNwTtl => 24,
        ActionType::SetField => 25,
        ActionType::PushPbb => 26,
        ActionType::PopPbb => 27,
        ActionType::Experimenter => 0xffff,
    }
}

/// The action type with the given wire value, if there is one.
pub open spec fn action_type_of(v: u16) -> Option<ActionType> {
    if v == 0 { Some(ActionType::Output) }
    else if v == 11 { Some(ActionType::CopyTtlOut) }
    else if v == 12 { Some(ActionType::CopyTtlIn) }
    else if v == 15 { Some(ActionType::SetMplsTtl) }
    else if v == 16 { Some(ActionType::DecMplsTtl) }
    else if v == 17 { Some(ActionType::PushVlan) }
    else if v == 18 { Some(ActionType::PopVlan) }
    else if v == 19 { Some(ActionType::PushMpls) }
    else if v == 20 { Some(ActionType::PopMpls) }
    else if v == 21 { Some(ActionType::SetQueue) }
    else if v == 22 { Some(ActionType::Group) }
    else if v == 23 { Some(ActionType::SetNwTtl) }
    else if v == 24 { Some(ActionType::DecNwTtl) }
    else if v == 25 { Some(ActionType::SetField) }
    else if v == 26 { Some(ActionType::PushPbb) }
    else if v == 27 { Some(ActionType::PopPbb) }
    else if v == 0xffff { Some(ActionType::Experimenter) }
    else { None }
}

impl ActionType {
    /// The wire value of this action type.
    pub fn wire_value(self) -> (r: u16)
        ensures
            r == action_type_value(self),
    {
        match self {
            ActionType::Output => 0,
            ActionType::CopyTtlOut => 11,
            ActionType::CopyTtlIn => 12,
            ActionType::SetMplsTtl => 15,
            ActionType::DecMplsTtl => 16,
            ActionType::PushVlan => 17,
            ActionType::PopVlan => 18,
            ActionType::PushMpls => 19,
            ActionType::PopMpls => 20,
            ActionType::SetQueue => 21,
            ActionType::Group => 22,
            ActionType::SetNwTtl => 23,
            ActionType::DecNwTtl => 24,
            ActionType::SetField => 25,
            ActionType::PushPbb => 26,
            ActionType::PopPbb => 27,
            ActionType::Experimenter => 0xffff,
        }
    }

    /// The action type with wire value `v`; `None` for a value no action type has.
    pub fn from_wire(v: u16) -> (r: Option<ActionType>)
        ensures
            r == action_type_of(v),
    {
        if v == 0 { Some(ActionType::Output) }
        else if v == 11 { Some(ActionType::CopyTtlOut) }
        else if v == 12 { Some(ActionType::CopyTtlIn) }
        else if v == 15 { Some(ActionType::SetMplsTtl) }
        else if v == 16 { Some(ActionType::DecMplsTtl) }
        else if v == 17 { Some(ActionType::PushVlan) }
        else if v == 18 { Some(ActionType::PopVlan) }
        else if v == 19 { Some(ActionType::PushMpls) }
        else if v == 20 { Some(ActionType::PopMpls) }
        else if v == 21 { Some(ActionType::SetQueue) }
        else if v == 22 { Some(ActionType::Group) }
        else if v == 23 { Some(ActionType::SetNwTtl) }
        else if v == 24 { Some(ActionType::DecNwTtl) }
        else if v == 25 { Some(ActionType::SetField) }
        else if v == 26 { Some(ActionType::PushPbb) }
        else if v == 27 { Some(ActionType::PopPbb) }
        else if v == 0xffff { Some(ActionType::Experimenter) }
        else { None }
    }

    /// The action type with wire value `v`, or a parse error naming the
    /// unknown value in decimal.
    pub fn try_from(v: u16) -> (r: Result<ActionType, Error>)
        ensures
            action_type_of(v) matches Some(t) ==> r == Ok::<ActionType, Error>(t),
            action_type_of(v) is None ==> parse_message(r->Err_0) == Some(
                "unknown action type: "@ + decimal(v as nat),
            ) && r is Err,
    {
        match ActionType::from_wire(v) {
            Some(t) => Ok(t),
            None => {
                let msg = "unknown action type: ".to_owned().concat(decimal_string(v as u64).as_str());
                Err(Error::Parse(msg))
            },
        }
    }
}

/// Every action type reads back from its own wire value.
pub proof fn lemma_action_type_roundtrip(t: ActionType)
    ensures
        action_type_of(action_type_value(t)) == Some(t),
{
}

/// Nicira vendor ID for experimenter actions.
pub const NICIRA_VENDOR_ID: u32 = 0x0000_2320;

/// Nicira action subtypes.
#[derive(Debug, Clone, Copy, PartialEq, Eq, Structural)]
pub enum NxActionSubtype {
    /// Resubmit to table
    Resubmit,
    /// Resubmit to table (extended)
    ResubmitTable,
    /// Move bits between fields
    Move,
    /// Load immediate value into field
    RegLoad,
    /// Connection tracking
    Ct,
    /// Learn action
    Learn,
    /// Set field (Nicira version)
    RegLoad2,
}

/// The wire value of each Nicira subtype.
pub open spec fn subtype_value(t: NxActionSubtype) -> u16 {
    match t {
        NxActionSubtype::Resubmit => 1,
        NxActionSubtype::ResubmitTable => 14,
        NxActionSubtype::Move => 6,
        NxActionSubtype::RegLoad => 7,
        NxActionSubtype::Ct => 35,
        NxActionSubtype::Learn => 16,
        NxActionSubtype::RegLoad2 => 33,
    }
}

impl NxActionSubtype {
    /// The wire value of this subtype.
    pub fn wire_value(self) -> (r: u16)
        ensures
            r == subtype_value(self),
    {
        match self {
            NxActionSubtype::Resubmit => 1,
            NxActionSubtype::ResubmitTable => 14,
            NxActionSubtype::Move => 6,
            NxActionSubtype::RegLoad => 7,
            NxActionSubtype::Ct => 35,
            NxActionSubtype::Learn => 16,
            NxActionSubtype::RegLoad2 => 33,
        }
    }
}

/// CT commit flag (shorthand).
pub const CT_COMMIT: u16 = ct_flags::COMMIT;

/// Output port specification.
#[derive(Debug, Clone, Copy, PartialEq, Eq, Structural)]
pub enum OutputPort {
    /// Physical or logical port number
    Port(u32),
    /// Send to controller
    Controller,
    /// Flood (all ports except input)
    Flood,
    /// All ports except input
    All,
    /// Input port
    InPort,
    /// Local (management) port
    Local,
    /// Normal L2/L3 processing
    Normal,
    /// No output (drop)
    NoPort,
}

/// The wire port number of an output port.
pub open spec fn wire_port(p: OutputPort) -> u32 {
    match p {
        OutputPort::Port(n) => n,
        OutputPort::Controller => port::CONTROLLER,
        OutputPort::Flood => port::FLOOD,
        OutputPort::All => port::ALL,
        OutputPort::InPort => port::IN_PORT,
        OutputPort::Local => port::LOCAL,
        OutputPort::Normal => port::NORMAL,
        OutputPort::NoPort => port::NONE,
    }
}

/// The output port that a wire port number stands for: the named reserved
/// ports, otherwise a plain port number.
pub open spec fn port_of_wire(n: u32) -> OutputPort {
    if n == port::CONTROLLER { OutputPort::Controller }
    else if n == port::FLOOD { OutputPort::Flood }
    else if n == port::ALL { OutputPort::All }
    else if n == port::IN_PORT { OutputPort::InPort }
    else if n == port::LOCAL { OutputPort::Local }
    else if n == port::NORMAL { OutputPort::Normal }
    else if n == port::NONE { OutputPort::NoPort }
    else { OutputPort::Port(n) }
}

impl OutputPort {
    /// Convert to wire format port number.
    pub fn to_wire_port(self) -> (r: u32)
        ensures
            r == wire_port(self),
    {
        match self {
            OutputPort::Port(p) => p,
            OutputPort::Controller => port::CONTROLLER,
            OutputPort::Flood => port::FLOOD,
            OutputPort::All => port::ALL,
            OutputPort::InPort => port::IN_PORT,
            OutputPort::Local => port::LOCAL,
            OutputPort::Normal => port::NORMAL,
            OutputPort::NoPort => port::NONE,
        }
    }

    /// Create from wire format port number.
    pub fn from_wire(port_num: u32) -> (r: OutputPort)
        ensures
            r == port_of_wire(port_num),
    {
        if port_num == port::CONTROLLER { OutputPort::Controller }
        else if port_num == port::FLOOD { OutputPort::Flood }
        else if port_num == port::ALL { OutputPort::All }
        else if port_num == port::IN_PORT { OutputPort::InPort }
        else if port_num == port::LOCAL { OutputPort::Local }
        else if port_num == port::NORMAL { OutputPort::Normal }
        else if port_num == port::NONE { OutputPort::NoPort }
        else { OutputPort::Port(port_num) }
    }
}

impl From<u32> for OutputPort {
    fn from(port: u32) -> (r: OutputPort) {
        OutputPort::Port(port)
    }
}

impl vstd::std_specs::convert::FromSpecImpl<u32> for OutputPort {
    open spec fn obeys_from_spec() -> bool {
        true
    }

    open spec fn from_spec(v: u32) -> OutputPort {
        OutputPort::Port(v)
    }
}

/// Reading a port back from its wire number gives the same wire number.
pub proof fn lemma_port_wire_roundtrip(n: u32)
    ensures
        wire_port(port_of_wire(n)) == n,
{
}

/// A named output port reads back as itself; a numbered port reads back as
/// itself unless its number is one of the reserved ones.
pub proof fn lemma_port_of_wire_port(p: OutputPort)
    ensures
        (p is Port ==> wire_port(p) < port::IN_PORT) ==> port_of_wire(wire_port(p)) == p,
{
}

/// An OpenFlow action.
#[derive(Debug, Clone)]
pub enum Action {
    /// Output to a port
    Output(OutputPort),
    /// Drop the packet (implicit, no action)
    Drop,
    /// Send to controller
    Controller { max_len: u16 },
    /// Set source MAC
    SetEthSrc(MacAddr),
    /// Set destination MAC
    SetEthDst(MacAddr),
    /// Set VLAN ID
    SetVlanVid(u16),
    /// Push VLAN tag
    PushVlan(u16),
    /// Pop VLAN tag
    PopVlan,
    /// Set IPv4 source
    SetIpv4Src(Ipv4Addr),
    /// Set IPv4 destination
    SetIpv4Dst(Ipv4Addr),
    /// Set TCP/UDP source port
    SetTpSrc(u16),
    /// Set TCP/UDP destination port
    SetTpDst(u16),
    /// Set IP TTL
    SetTtl(u8),
    /// Decrement IP TTL
    DecTtl,
    /// Go to table (OF 1.1+)
    GotoTable(u8),
    /// Write metadata
    WriteMetadata { metadata: u64, mask: u64 },
    /// Apply meter
    Meter(u32),
    /// Output to group
    Group(u32),
    /// Set tunnel ID
    SetTunnelId(u64),
    /// Resubmit to table (Nicira extension)
    NxResubmit { port: Option<u16>, table: Option<u8> },
    /// Learn action (Nicira extension)
    NxLearn(NxLearn),
    /// Conntrack action (Nicira extension)
    NxCt { flags: u16, zone: u16, table: Option<u8> },
    /// Move/copy bits between fields (Nicira extension)
    NxMove { src_field: u32, dst_field: u32, n_bits: u16, src_ofs: u16, dst_ofs: u16 },
}

/// The mathematical value of an [`Action`].
pub enum ActionModel {
    Output(OutputPort),
    Drop,
    Controller { max_len: u16 },
    SetEthSrc(MacAddr),
    SetEthDst(MacAddr),
    SetVlanVid(u16),
    PushVlan(u16),
    PopVlan,
    SetIpv4Src(Ipv4Addr),
    SetIpv4Dst(Ipv4Addr),
    SetTpSrc(u16),
    SetTpDst(u16),
    SetTtl(u8),
    DecTtl,
    GotoTable(u8),
    WriteMetadata { metadata: u64, mask: u64 },
    Meter(u32),
    Group(u32),
    SetTunnelId(u64),
    NxResubmit { port: Option<u16>, table: Option<u8> },
    NxLearn(NxLearnModel),
    NxCt { flags: u16, zone: u16, table: Option<u8> },
    NxMove { src_field: u32, dst_field: u32, n_bits: u16, src_ofs: u16, dst_ofs: u16 },
}

impl View for Action {
    type V = ActionModel;

    open spec fn view(&self) -> ActionModel {
        match self {
            Action::Output(p) => ActionModel::Output(*p),
            Action::Drop => ActionModel::Drop,
            Action::Controller { max_len } => ActionModel::Controller { max_len: *max_len },
            Action::SetEthSrc(m) => ActionModel::SetEthSrc(*m),
            Action::SetEthDst(m) => ActionModel::SetEthDst(*m),
            Action::SetVlanVid(v) => ActionModel::SetVlanVid(*v),
            Action::PushVlan(v) => ActionModel::PushVlan(*v),
            Action::PopVlan => ActionModel::PopVlan,
            Action::SetIpv4Src(a) => ActionModel::SetIpv4Src(*a),
            Action::SetIpv4Dst(a) => ActionModel::SetIpv4Dst(*a),
            Action::SetTpSrc(p) => ActionModel::SetTpSrc(*p),
            Action::SetTpDst(p) => ActionModel::SetTpDst(*p),
            Action::SetTtl(t) => ActionModel::SetTtl(*t),
            Action::DecTtl => ActionModel::DecTtl,
            Action::GotoTable(t) => ActionModel::GotoTable(*t),
            Action::WriteMetadata { metadata, mask } => ActionModel::WriteMetadata {
                metadata: *metadata,
                mask: *mask,
            },
            Action::Meter(m) => ActionModel::Meter(*m),
            Action::Group(g) => ActionModel::Group(*g),
            Action::SetTunnelId(t) => ActionModel::SetTunnelId(*t),
            Action::NxResubmit { port, table } => ActionModel::NxResubmit { port: *port, table: *table },
            Action::NxLearn(l) => ActionModel::NxLearn(l@),
            Action::NxCt { flags, zone, table } => ActionModel::NxCt {
                flags: *flags,
                zone: *zone,
                table: *table,
            },
            Action::NxMove { src_field, dst_field, n_bits, src_ofs, dst_ofs } => ActionModel::NxMove {
                src_field: *src_field,
                dst_field: *dst_field,
                n_bits: *n_bits,
                src_ofs: *src_ofs,
                dst_ofs: *dst_ofs,
            },
        }
    }
}

// ---------------------------------------------------------------------------
// Wire layouts
// ---------------------------------------------------------------------------

/// OXM class of the basic OpenFlow match fields.
pub const OXM_BASIC: u32 = 0x8000;
/// OXM field numbers used by set-field actions.
pub const FIELD_ETH_DST: u32 = 3;
pub const FIELD_ETH_SRC: u32 = 4;
pub const FIELD_VLAN_VID: u32 = 6;
pub const FIELD_IPV4_SRC: u32 = 11;
pub const FIELD_IPV4_DST: u32 = 12;
pub const FIELD_TCP_SRC: u32 = 13;
pub const FIELD_TCP_DST: u32 = 14;
pub const FIELD_UDP_SRC: u32 = 15;
pub const FIELD_UDP_DST: u32 = 16;

/// The header of a basic OXM field with no mask: class, field number, length.
pub open spec fn basic_oxm(field: u32, len: u32) -> u32 {
    (OXM_BASIC * 0x1_0000 + field * 0x200 + len) as u32
}

/// Output action: type 0, length 16, port, max_len, six bytes of padding.
pub open spec fn output_bytes(port_num: u32, max_len: u16) -> Seq<u8> {
    be16(0) + be16(16) + be32(port_num) + be16(max_len) + zeros(6)
}

/// An eight-byte action made of its type, length 8 and a four-byte body.
pub open spec fn short_action_bytes(t: u16, body: Seq<u8>) -> Seq<u8> {
    be16(t) + be16(8) + body
}

/// Set-field action: type 25, length 16, the OXM header, the value, padding to 16 bytes.
pub open spec fn set_field_bytes(field: u32, value: Seq<u8>) -> Seq<u8> {
    be16(25) + be16(16) + be32(basic_oxm(field, value.len() as u32)) + value + zeros((8 - value.len()) as nat)
}

/// The header of a Nicira experimenter action: type 0xffff, length, vendor, subtype.
pub open spec fn nx_header_bytes(subtype: u16, len: u16) -> Seq<u8> {
    be16(0xffff) + be16(len) + be32(NICIRA_VENDOR_ID) + be16(subtype)
}

/// The NXM header of the tunnel ID field (class 1, field 16, length 8).
pub const TUN_ID_HEADER: u32 = 0x0001_2008;

/// Set tunnel ID as a Nicira reg_load2 action (24 bytes).
pub open spec fn tunnel_id_bytes(tun_id: u64) -> Seq<u8> {
    nx_header_bytes(33, 24) + be32(TUN_ID_HEADER) + be64(tun_id) + zeros(2)
}

/// Extended resubmit (16 bytes); an absent port is written as 0xfff8 and an
/// absent table as 255.
pub open spec fn resubmit_bytes(in_port: Option<u16>, table: Option<u8>) -> Seq<u8> {
    nx_header_bytes(14, 16) + be16(match in_port { Some(p) => p, None => 0xfff8u16 })
        + seq![match table { Some(t) => t, None => 255u8 }] + zeros(3)
}

/// Connection tracking action (24 bytes); an absent recirculation table is written as 255.
pub open spec fn ct_bytes(flags: u16, zone: u16, table: Option<u8>) -> Seq<u8> {
    nx_header_bytes(35, 24) + be16(flags) + be32(0) + be16(zone)
        + seq![match table { Some(t) => t, None => 255u8 }] + zeros(3) + be16(0)
}

/// Register load (24 bytes): `ofs_nbits`, the register's NXM header (class
/// 1, field bits ORed in from the register number, length 4), the value.
pub open spec fn reg_load_bytes(reg_num: u8, value: u32, start_bit: u8, n_bits: u8) -> Seq<u8> {
    nx_header_bytes(7, 24) + be16(((start_bit as u16) << 6u16) | ((n_bits - 1) as u16))
        + be32(0x1_0000u32 | ((reg_num as u32) << 9u32) | 4u32) + be64(value as u64)
}

/// Move (24 bytes): bit count, offsets, source and destination NXM headers.
pub open spec fn move_bytes(src_field: u32, dst_field: u32, n_bits: u16, src_ofs: u16, dst_ofs: u16) -> Seq<u8> {
    nx_header_bytes(6, 24) + be16(n_bits) + be16(src_ofs) + be16(dst_ofs) + be32(src_field) + be32(dst_field)
}

/// Length of a learn action before padding: 32 bytes of header and fields, then the specs.
pub open spec fn learn_unpadded_len(l: NxLearnModel) -> nat {
    32 + specs_bytes(l.specs).len()
}

/// Length of a learn action: rounded up to a multiple of 8.
pub open spec fn learn_padded_len(l: NxLearnModel) -> nat {
    ((learn_unpadded_len(l) + 7) / 8) * 8
}

/// Learn action: Nicira header (with the padded length, modulo 2^16), the
/// fixed fields, the specs, then zero padding to a multiple of 8 bytes.
pub open spec fn learn_bytes(l: NxLearnModel) -> Seq<u8> {
    nx_header_bytes(16, (learn_padded_len(l) % 0x1_0000) as u16)
        + be16(l.idle_timeout) + be16(l.hard_timeout) + be16(l.priority) + be64(l.cookie)
        + be16(l.flags) + seq![l.table_id, 0u8] + be16(l.fin_idle_timeout) + be16(l.fin_hard_timeout)
        + specs_bytes(l.specs) + zeros((learn_padded_len(l) - learn_unpadded_len(l)) as nat)
}

/// The four octets of an IPv4 address as one big-endian number.
pub open spec fn ipv4_value(a: Ipv4Addr) -> u32 {
    (a[0] * 0x100_0000 + a[1] * 0x1_0000 + a[2] * 0x100 + a[3]) as u32
}

/// The bytes of an action (empty for the actions that are instructions or no-ops).
pub open spec fn action_bytes(a: ActionModel) -> Seq<u8> {
    match a {
        ActionModel::Output(p) => output_bytes(wire_port(p), 0xffff),
        ActionModel::Drop => Seq::empty(),
        ActionModel::Controller { max_len } => output_bytes(port::CONTROLLER, max_len),
        ActionModel::SetEthSrc(mac) => set_field_bytes(FIELD_ETH_SRC, mac@),
        ActionModel::SetEthDst(mac) => set_field_bytes(FIELD_ETH_DST, mac@),
        ActionModel::SetVlanVid(vid) => set_field_bytes(FIELD_VLAN_VID, be16(vid | 0x1000u16)),
        ActionModel::PushVlan(ethertype) => short_action_bytes(17, be16(ethertype) + zeros(2)),
        ActionModel::PopVlan => short_action_bytes(18, zeros(4)),
        ActionModel::SetIpv4Src(addr) => set_field_bytes(FIELD_IPV4_SRC, be32(ipv4_value(addr))),
        ActionModel::SetIpv4Dst(addr) => set_field_bytes(FIELD_IPV4_DST, be32(ipv4_value(addr))),
        ActionModel::SetTpSrc(p) => set_field_bytes(FIELD_TCP_SRC, be16(p)),
        ActionModel::SetTpDst(p) => set_field_bytes(FIELD_TCP_DST, be16(p)),
        ActionModel::SetTtl(ttl) => short_action_bytes(23, seq![ttl] + zeros(3)),
        ActionModel::DecTtl => short_action_bytes(24, zeros(4)),
        ActionModel::GotoTable(_) => Seq::empty(),
        ActionModel::WriteMetadata { .. } => Seq::empty(),
        ActionModel::Meter(_) => Seq::empty(),
        ActionModel::Group(g) => short_action_bytes(22, be32(g)),
        ActionModel::SetTunnelId(t) => tunnel_id_bytes(t),
        ActionModel::NxResubmit { port, table } => resubmit_bytes(port, table),
        ActionModel::NxLearn(l) => learn_bytes(l),
        ActionModel::NxCt { flags, zone, table } => ct_bytes(flags, zone, table),
        ActionModel::NxMove { src_field, dst_field, n_bits, src_ofs, dst_ofs } =>
            move_bytes(src_field, dst_field, n_bits, src_ofs, dst_ofs),
    }
}

/// The learn specs fit in memory once the fixed part and padding are added.
pub open spec fn learn_fits(l: NxLearnModel) -> bool {
    specs_bytes(l.specs).len() + 40 <= usize::MAX
}

/// Every action can be encoded, except a learn action whose specs would not
/// fit in memory with the action's fixed part.
pub open spec fn action_encodable(a: ActionModel) -> bool {
    match a {
        ActionModel::NxLearn(l) => learn_fits(l),
        _ => true,
    }
}

// ---------------------------------------------------------------------------
// Encoders
// ---------------------------------------------------------------------------

/// Encode Output action (16 bytes).
pub fn encode_output(port_num: u32, max_len: u16) -> (r: Vec<u8>)
    ensures
        r@ == output_bytes(port_num, max_len),
{
    let mut buf: Vec<u8> = Vec::new();
    push_be16(&mut buf, ActionType::Output.wire_value());
    push_be16(&mut buf, 16);
    push_be32(&mut buf, port_num);
    push_be16(&mut buf, max_len);
    push_zeros(&mut buf, 6);
    assert(buf@ =~= output_bytes(port_num, max_len));
    buf
}

/// Encode PopVlan action (8 bytes).
pub fn encode_pop_vlan() -> (r: Vec<u8>)
    ensures
        r@ == short_action_bytes(18, zeros(4)),
{
    let mut buf: Vec<u8> = Vec::new();
    push_be16(&mut buf, ActionType::PopVlan.wire_value());
    push_be16(&mut buf, 8);
    push_zeros(&mut buf, 4);
    assert(buf@ =~= short_action_bytes(18, zeros(4)));
    buf
}

/// Encode PushVlan action (8 bytes).
pub fn encode_push_vlan(ethertype: u16) -> (r: Vec<u8>)
    ensures
        r@ == short_action_bytes(17, be16(ethertype) + zeros(2)),
{
    let mut buf: Vec<u8> = Vec::new();
    push_be16(&mut buf, ActionType::PushVlan.wire_value());
    push_be16(&mut buf, 8);
    push_be16(&mut buf, ethertype);
    push_zeros(&mut buf, 2);
    assert(buf@ =~= short_action_bytes(17, be16(ethertype) + zeros(2)));
    buf
}

/// Encode DecNwTtl action (8 bytes).
pub fn encode_dec_ttl() -> (r: Vec<u8>)
    ensures
        r@ == short_action_bytes(24, zeros(4)),
{
    let mut buf: Vec<u8> = Vec::new();
    push_be16(&mut buf, ActionType::DecNwTtl.wire_value());
    push_be16(&mut buf, 8);
    push_zeros(&mut buf, 4);
    assert(buf@ =~= short_action_bytes(24, zeros(4)));
    buf
}

/// Encode SetNwTtl action (8 bytes).
pub fn encode_set_nw_ttl(ttl: u8) -> (r: Vec<u8>)
    ensures
        r@ == short_action_bytes(23, seq![ttl] + zeros(3)),
{
    let mut buf: Vec<u8> = Vec::new();
    push_be16(&mut buf, ActionType::SetNwTtl.wire_value());
    push_be16(&mut buf, 8);
    buf.push(ttl);
    push_zeros(&mut buf, 3);
    assert(buf@ =~= short_action_bytes(23, seq![ttl] + zeros(3)));
    buf
}

/// Encode Group action (8 bytes).
pub fn encode_group(group_id: u32) -> (r: Vec<u8>)
    ensures
        r@ == short_action_bytes(22, be32(group_id)),
{
    let mut buf: Vec<u8> = Vec::new();
    push_be16(&mut buf, ActionType::Group.wire_value());
    push_be16(&mut buf, 8);
    push_be32(&mut buf, group_id);
    assert(buf@ =~= short_action_bytes(22, be32(group_id)));
    buf
}

/// The OXM header of a basic field with no mask.
fn basic_oxm_header(field: u32, len: u32) -> (r: u32)
    requires
        field < 128,
        len < 256,
    ensures
        r == basic_oxm(field, len),
{
    OXM_BASIC * 0x1_0000 + field * 0x200 + len
}

/// Encode SetField action for MAC address (16 bytes).
pub fn encode_set_field_mac(field: OxmField, mac: MacAddr) -> (r: Vec<u8>)
    ensures
        r@ == set_field_bytes(crate::openflow::oxm::field_value(field) as u32, mac@),
{
    let mut buf: Vec<u8> = Vec::new();
    push_be16(&mut buf, ActionType::SetField.wire_value());
    push_be16(&mut buf, 16);
    push_be32(&mut buf, basic_oxm_header(field.value() as u32, 6));
    let mut i: usize = 0;
    let ghost start = buf@;
    while i < 6
        invariant
            i <= 6,
            buf@ == start + mac@.subrange(0, i as int),
        decreases 6 - i,
    {
        buf.push(mac[i]);
        i = i + 1;
        assert(buf@ =~= start + mac@.subrange(0, i as int));
    }
    push_zeros(&mut buf, 2);
    assert(mac@.subrange(0, 6) =~= mac@);
    assert(buf@ =~= set_field_bytes(crate::openflow::oxm::field_value(field) as u32, mac@));
    buf
}

/// Encode SetField action for u16 value (16 bytes).
pub fn encode_set_field_u16(field: OxmField, value: u16) -> (r: Vec<u8>)
    ensures
        r@ == set_field_bytes(crate::openflow::oxm::field_value(field) as u32, be16(value)),
{
    let mut buf: Vec<u8> = Vec::new();
    push_be16(&mut buf, ActionType::SetField.wire_value());
    push_be16(&mut buf, 16);
    push_be32(&mut buf, basic_oxm_header(field.value() as u32, 2));
    push_be16(&mut buf, value);
    push_zeros(&mut buf, 6);
    assert(buf@ =~= set_field_bytes(crate::openflow::oxm::field_value(field) as u32, be16(value)));
    buf
}

/// Encode SetField action for u32 value (16 bytes).
pub fn encode_set_field_u32(field: OxmField, value: u32) -> (r: Vec<u8>)
    ensures
        r@ == set_field_bytes(crate::openflow::oxm::field_value(field) as u32, be32(value)),
{
    let mut buf: Vec<u8> = Vec::new();
    push_be16(&mut buf, ActionType::SetField.wire_value());
    push_be16(&mut buf, 16);
    push_be32(&mut buf, basic_oxm_header(field.value() as u32, 4));
    push_be32(&mut buf, value);
    push_zeros(&mut buf, 4);
    assert(buf@ =~= set_field_bytes(crate::openflow::oxm::field_value(field) as u32, be32(value)));
    buf
}

/// Encode Nicira action header.
pub fn encode_nx_header(subtype: NxActionSubtype, len: u16) -> (r: Vec<u8>)
    ensures
        r@ == nx_header_bytes(subtype_value(subtype), len),
{
    let mut buf: Vec<u8> = Vec::new();
    push_be16(&mut buf, ActionType::Experimenter.wire_value());
    push_be16(&mut buf, len);
    push_be32(&mut buf, NICIRA_VENDOR_ID);
    push_be16(&mut buf, subtype.wire_value());
    assert(buf@ =~= nx_header_bytes(subtype_value(subtype), len));
    buf
}

/// Encode SetTunnelId as Nicira reg_load2 action (24 bytes).
pub fn encode_set_tunnel_id(tun_id: u64) -> (r: Vec<u8>)
    ensures
        r@ == tunnel_id_bytes(tun_id),
{
    let mut buf = encode_nx_header(NxActionSubtype::RegLoad2, 24);
    push_be32(&mut buf, TUN_ID_HEADER);
    push_be64(&mut buf, tun_id);
    push_zeros(&mut buf, 2);
    assert(buf@ =~= tunnel_id_bytes(tun_id));
    buf
}

/// Encode NxResubmit action (16 bytes for extended resubmit).
pub fn encode_nx_resubmit(in_port: Option<u16>, table: Option<u8>) -> (r: Vec<u8>)
    ensures
        r@ == resubmit_bytes(in_port, table),
{
    let mut buf = encode_nx_header(NxActionSubtype::ResubmitTable, 16);
    let p: u16 = match in_port { Some(p) => p, None => 0xfff8 };
    let t: u8 = match table { Some(t) => t, None => 255 };
    push_be16(&mut buf, p);
    buf.push(t);
    push_zeros(&mut buf, 3);
    assert(buf@ =~= resubmit_bytes(in_port, table));
    buf
}

/// Encode NxCt (connection tracking) action.
pub fn encode_nx_ct(flags: u16, zone: u16, table: Option<u8>) -> (r: Vec<u8>)
    ensures
        r@ == ct_bytes(flags, zone, table),
{
    let mut buf = encode_nx_header(NxActionSubtype::Ct, 24);
    push_be16(&mut buf, flags);
    push_be32(&mut buf, 0);
    push_be16(&mut buf, zone);
    let t: u8 = match table { Some(t) => t, None => 255 };
    buf.push(t);
    push_zeros(&mut buf, 3);
    push_be16(&mut buf, 0);
    assert(buf@ =~= ct_bytes(flags, zone, table));
    buf
}

/// Encode NxRegLoad action for loading immediate value into register.
///
/// Format: `load:value->NXM_NX_REGn[start..end]`
pub fn encode_nx_reg_load(reg_num: u8, value: u32, start_bit: u8, n_bits: u8) -> (r: Vec<u8>)
    requires
        n_bits >= 1,
    ensures
        r@ == reg_load_bytes(reg_num, value, start_bit, n_bits),
{
    let mut buf = encode_nx_header(NxActionSubtype::RegLoad, 24);
    let ofs_nbits: u16 = ((start_bit as u16) << 6u16) | ((n_bits - 1) as u16);
    push_be16(&mut buf, ofs_nbits);
    let dst_header: u32 = 0x1_0000u32 | ((reg_num as u32) << 9u32) | 4u32;
    push_be32(&mut buf, dst_header);
    push_be64(&mut buf, value as u64);
    assert(buf@ =~= reg_load_bytes(reg_num, value, start_bit, n_bits));
    buf
}

/// Encode NxMove action for copying bits between fields.
///
/// Format: `move:src[start..end]->dst[start..end]`
pub fn encode_nx_move(src_field: u32, dst_field: u32, n_bits: u16, src_ofs: u16, dst_ofs: u16) -> (r: Vec<u8>)
    ensures
        r@ == move_bytes(src_field, dst_field, n_bits, src_ofs, dst_ofs),
{
    let mut buf = encode_nx_header(NxActionSubtype::Move, 24);
    push_be16(&mut buf, n_bits);
    push_be16(&mut buf, src_ofs);
    push_be16(&mut buf, dst_ofs);
    push_be32(&mut buf, src_field);
    push_be32(&mut buf, dst_field);
    assert(buf@ =~= move_bytes(src_field, dst_field, n_bits, src_ofs, dst_ofs));
    buf
}

/// Encode NxLearn action for creating flows dynamically.
pub fn encode_nx_learn(learn: &NxLearn) -> (r: Vec<u8>)
    requires
        learn_fits(learn@),
    ensures
        r@ == learn_bytes(learn@),
{
    let mut specs_buf = encode_learn_specs(learn.specs.as_slice());
    let total_len: usize = 32 + specs_buf.len();
    let padded_len: usize = (total_len + 7) / 8 * 8;
    let mut buf: Vec<u8> = Vec::new();
    push_be16(&mut buf, ActionType::Experimenter.wire_value());
    push_be16(&mut buf, (padded_len % 0x1_0000) as u16);
    push_be32(&mut buf, NICIRA_VENDOR_ID);
    push_be16(&mut buf, NxActionSubtype::Learn.wire_value());
    push_be16(&mut buf, learn.idle_timeout);
    push_be16(&mut buf, learn.hard_timeout);
    push_be16(&mut buf, learn.priority);
    push_be64(&mut buf, learn.cookie);
    push_be16(&mut buf, learn.flags);
    buf.push(learn.table_id);
    buf.push(0);
    push_be16(&mut buf, learn.fin_idle_timeout);
    push_be16(&mut buf, learn.fin_hard_timeout);
    buf.append(&mut specs_buf);
    push_zeros(&mut buf, padded_len - total_len);
    assert(buf@ =~= learn_bytes(learn@));
    buf
}

/// The value of an IPv4 address as one big-endian number.
pub fn ipv4_to_u32(a: Ipv4Addr) -> (r: u32)
    ensures
        r == ipv4_value(a),
{
    (a[0] as u32) * 0x100_0000 + (a[1] as u32) * 0x1_0000 + (a[2] as u32) * 0x100 + (a[3] as u32)
}

impl Action {
    /// Encode action to OpenFlow wire format.
    pub fn encode(&self) -> (r: Vec<u8>)
        requires
            action_encodable(self@),
        ensures
            r@ == action_bytes(self@),
    {
        match self {
            Action::Output(p) => encode_output(p.to_wire_port(), 0xffff),
            Action::Drop => Vec::new(),
            Action::Controller { max_len } => encode_output(port::CONTROLLER, *max_len),
            Action::SetEthSrc(mac) => encode_set_field_mac(OxmField::EthSrc, *mac),
            Action::SetEthDst(mac) => encode_set_field_mac(OxmField::EthDst, *mac),
            Action::SetVlanVid(vid) => encode_set_field_u16(OxmField::VlanVid, *vid | 0x1000u16),
            Action::PushVlan(ethertype) => encode_push_vlan(*ethertype),
            Action::PopVlan => encode_pop_vlan(),
            Action::SetIpv4Src(addr) => encode_set_field_u32(OxmField::Ipv4Src, ipv4_to_u32(*addr)),
            Action::SetIpv4Dst(addr) => encode_set_field_u32(OxmField::Ipv4Dst, ipv4_to_u32(*addr)),
            Action::SetTpSrc(p) => encode_set_field_u16(OxmField::TcpSrc, *p),
            Action::SetTpDst(p) => encode_set_field_u16(OxmField::TcpDst, *p),
            Action::SetTtl(ttl) => encode_set_nw_ttl(*ttl),
            Action::DecTtl => encode_dec_ttl(),
            Action::GotoTable(_) => Vec::new(),
            Action::WriteMetadata { .. } => Vec::new(),
            Action::Meter(_) => Vec::new(),
            Action::Group(group_id) => encode_group(*group_id),
            Action::SetTunnelId(tun_id) => encode_set_tunnel_id(*tun_id),
            Action::NxResubmit { port, table } => encode_nx_resubmit(*port, *table),
            Action::NxLearn(learn) => encode_nx_learn(learn),
            Action::NxCt { flags, zone, table } => encode_nx_ct(*flags, *zone, *table),
            Action::NxMove { src_field, dst_field, n_bits, src_ofs, dst_ofs } =>
                encode_nx_move(*src_field, *dst_field, *n_bits, *src_ofs, *dst_ofs),
        }
    }
}

} // verus!
