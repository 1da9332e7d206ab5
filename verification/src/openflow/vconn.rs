//! The decisions of an OpenFlow connection: which protocol version it
//! speaks and which transaction id each request carries. The connection's
//! I/O is driven by the caller.
use vstd::prelude::*;
use crate::openflow::version::{version_value, Version};

verus! {

/// The protocol state of an OpenFlow connection.
#[derive(Debug)]
pub struct VConnState {
    version: Version,
    next_xid: u32,
}

/// The abstract protocol state of a connection.
pub struct VConnModel {
    pub version: Version,
    pub next_xid: u32,
}

impl View for VConnState {
    type V = VConnModel;

    closed spec fn view(&self) -> VConnModel {
        VConnModel { version: self.version, next_xid: self.next_xid }
    }
}

/// The transaction id that follows `xid`: one more, wrapping to 0 after
/// `u32::MAX`.
pub open spec fn following_xid(xid: u32) -> u32 {
    if xid == u32::MAX {
        0
    } else {
        (xid + 1) as u32
    }
}

/// The lower of two versions, by wire number.
pub open spec fn lower_version(a: Version, b: Version) -> Version {
    if version_value(b) < version_value(a) {
        b
    } else {
        a
    }
}

impl VConnState {
    /// A new connection: it offers OpenFlow 1.3, and its first transaction
    /// id is 1.
    pub fn new() -> (r: Self)
        ensures
            r@ == (VConnModel { version: Version::Of13, next_xid: 1 }),
    {
        VConnState { version: Version::Of13, next_xid: 1 }
    }

    /// The negotiated OpenFlow version.
    pub fn version(&self) -> (r: Version)
        ensures
            r == self@.version,
    {
        self.version
    }

    /// Take the next transaction id; ids wrap around after `u32::MAX`.
    pub fn next_xid(&mut self) -> (r: u32)
        ensures
            r == old(self)@.next_xid,
            final(self)@ == (VConnModel { next_xid: following_xid(old(self)@.next_xid), ..old(self)@ }),
    {
        let xid = self.next_xid;
        self.next_xid = self.next_xid.wrapping_add(1);
        xid
    }

    /// Settle on the lower of our version and the version the peer's Hello
    /// names.
    pub fn negotiate(&mut self, peer: Version)
        ensures
            final(self)@ == (VConnModel { version: lower_version(old(self)@.version, peer), ..old(self)@ }),
    {
        if peer.wire_version() < self.version.wire_version() {
            self.version = peer;
        }
    }
}

/// Law: the negotiated version is never above either side's.
pub proof fn lemma_negotiated_not_above(a: Version, b: Version)
    ensures
        version_value(lower_version(a, b)) <= version_value(a),
        version_value(lower_version(a, b)) <= version_value(b),
        lower_version(a, b) == a || lower_version(a, b) == b,
{
}

/// Law: the id taken after `xid` is `xid + 1` modulo 2^32, so two ids taken
/// one after the other always differ.
pub proof fn lemma_xids_advance(xid: u32)
    ensures
        following_xid(xid) as int == (xid as int + 1) % 0x1_0000_0000,
        following_xid(xid) != xid,
{
}

} // verus!
