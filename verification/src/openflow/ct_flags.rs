//! Connection tracking flags.
use vstd::prelude::*;

verus! {

/// Commit the connection to the CT table
pub const COMMIT: u16 = 1;
/// Force commit even if already tracked
pub const FORCE: u16 = 2;

} // verus!
