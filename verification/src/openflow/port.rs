//! Reserved OpenFlow port numbers.
use vstd::prelude::*;

verus! {

/// Maximum valid physical port number
pub const MAX: u32 = 0xffff_ff00;
/// Send to controller as packet-in
pub const CONTROLLER: u32 = 0xffff_fffd;
/// Submit to first flow table (packet-out only)
pub const TABLE: u32 = 0xffff_fff9;
/// Process with normal L2/L3 switching
pub const NORMAL: u32 = 0xffff_fffa;
/// All physical ports except input port
pub const FLOOD: u32 = 0xffff_fffb;
/// All physical ports except input port
pub const ALL: u32 = 0xffff_fffc;
/// Local openflow port
pub const LOCAL: u32 = 0xffff_fffe;
/// Not associated with a physical port
pub const NONE: u32 = 0xffff_ffff;
/// Send back out input port
pub const IN_PORT: u32 = 0xffff_fff8;

} // verus!
