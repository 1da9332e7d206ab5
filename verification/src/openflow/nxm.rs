//! NXM/OXM field header constants for use with learn specs.
//!
//! Field header format: `(class << 16) | (field << 9) | length`.
use vstd::prelude::*;

verus! {

/// NXM_OF_IN_PORT: Ingress port (2 bytes)
pub const IN_PORT: u32 = 0x0000_0002;
/// NXM_OF_ETH_DST: Destination MAC address (6 bytes)
pub const ETH_DST: u32 = 0x0000_0206;
/// NXM_OF_ETH_SRC: Source MAC address (6 bytes)
pub const ETH_SRC: u32 = 0x0000_0406;
/// NXM_OF_ETH_TYPE: Ethertype (2 bytes)
pub const ETH_TYPE: u32 = 0x0000_0602;
/// NXM_OF_VLAN_TCI: VLAN tag control information (2 bytes)
pub const VLAN_TCI: u32 = 0x0000_0802;
/// NXM_OF_IP_PROTO: IP protocol (1 byte)
pub const IP_PROTO: u32 = 0x0000_0a01;
/// NXM_OF_IP_SRC: IPv4 source address (4 bytes)
pub const IP_SRC: u32 = 0x0000_0c04;
/// NXM_OF_IP_DST: IPv4 destination address (4 bytes)
pub const IP_DST: u32 = 0x0000_0e04;
/// NXM_OF_TCP_SRC: TCP source port (2 bytes)
pub const TCP_SRC: u32 = 0x0000_1002;
/// NXM_OF_TCP_DST: TCP destination port (2 bytes)
pub const TCP_DST: u32 = 0x0000_1202;
/// NXM_NX_REG0: General purpose register 0 (4 bytes)
pub const REG0: u32 = 0x0001_0004;
/// NXM_NX_REG1: General purpose register 1 (4 bytes)
pub const REG1: u32 = 0x0001_0204;
/// NXM_NX_REG2: General purpose register 2 (4 bytes)
pub const REG2: u32 = 0x0001_0404;
/// NXM_NX_TUN_ID: Tunnel ID (8 bytes)
pub const TUN_ID: u32 = 0x0001_2008;
/// OXM_OF_IN_PORT: Ingress port (4 bytes)
pub const OXM_IN_PORT: u32 = 0x8000_0004;
/// OXM_OF_ETH_DST: Destination MAC address (6 bytes)
pub const OXM_ETH_DST: u32 = 0x8000_0606;
/// OXM_OF_ETH_SRC: Source MAC address (6 bytes)
pub const OXM_ETH_SRC: u32 = 0x8000_0806;

} // verus!
