//! OpenFlow protocol versions.
use vstd::prelude::*;
use crate::openflow::error::Error;

verus! {

/// OpenFlow protocol versions.
#[derive(Debug, Clone, Copy, PartialEq, Eq, PartialOrd, Ord, Structural)]
pub enum Version {
    /// OpenFlow 1.0
    Of10,
    /// OpenFlow 1.1
    Of11,
    /// OpenFlow 1.2
    Of12,
    /// OpenFlow 1.3
    Of13,
    /// OpenFlow 1.4
    Of14,
    /// OpenFlow 1.5
    Of15,
}

/// The wire version number of each protocol version.
pub open spec fn version_value(v: Version) -> u8 {
    match v {
        Version::Of10 => 0x01,
        Version::Of11 => 0x02,
        Version::Of12 => 0x03,
        Version::Of13 => 0x04,
        Version::Of14 => 0x05,
        Version::Of15 => 0x06,
    }
}

impl Version {
    /// Get the wire format version number.
    pub fn wire_version(self) -> (r: u8)
        ensures
            r == version_value(self),
    {
        match self {
            Version::Of10 => 0x01,
            Version::Of11 => 0x02,
            Version::Of12 => 0x03,
            Version::Of13 => 0x04,
            Version::Of14 => 0x05,
            Version::Of15 => 0x06,
        }
    }

    /// The version with wire number `v`; numbers 1 to 6 are known, any other
    /// is refused as unsupported.
    pub fn from_wire(v: u8) -> (r: Result<Version, Error>)
        ensures
            r == version_of_wire(v),
            1 <= v <= 6 ==> (r matches Ok(ver) && version_value(ver) == v),
    {
        match v {
            0x01 => Ok(Version::Of10),
            0x02 => Ok(Version::Of11),
            0x03 => Ok(Version::Of12),
            0x04 => Ok(Version::Of13),
            0x05 => Ok(Version::Of14),
            0x06 => Ok(Version::Of15),
            _ => Err(Error::UnsupportedVersion(v)),
        }
    }
}

/// The version that wire number `v` names, or the error that refuses it.
pub open spec fn version_of_wire(v: u8) -> Result<Version, Error> {
    if v == 0x01 {
        Ok(Version::Of10)
    } else if v == 0x02 {
        Ok(Version::Of11)
    } else if v == 0x03 {
        Ok(Version::Of12)
    } else if v == 0x04 {
        Ok(Version::Of13)
    } else if v == 0x05 {
        Ok(Version::Of14)
    } else if v == 0x06 {
        Ok(Version::Of15)
    } else {
        Err(Error::UnsupportedVersion(v))
    }
}

impl TryFrom<u8> for Version {
    type Error = Error;

    fn try_from(v: u8) -> (r: Result<Version, Error>) {
        Version::from_wire(v)
    }
}

impl vstd::std_specs::convert::TryFromSpecImpl<u8> for Version {
    open spec fn obeys_try_from_spec() -> bool {
        true
    }

    open spec fn try_from_spec(v: u8) -> Result<Version, Error> {
        version_of_wire(v)
    }
}

/// Law: every version reads back from its own wire number.
pub proof fn lemma_version_roundtrip(v: Version)
    ensures
        1 <= version_value(v) <= 6,
        forall|w: Version| version_value(w) == version_value(v) ==> w == v,
{
}

} // verus!
