//! Learn action flags.
use vstd::prelude::*;

verus! {

/// Send flow removed message when learned flow expires
pub const SEND_FLOW_REM: u16 = 1;
/// Delete matching flows instead of adding
pub const DELETE_LEARNED: u16 = 2;
/// Write result to the action set (vs apply immediately)
pub const WRITE_RESULT: u16 = 4;

} // verus!
