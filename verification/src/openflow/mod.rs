//! OpenFlow protocol logic: actions, match fields and flow modifications.
pub mod ct_flags;
pub mod learn;
pub mod learn_flags;
pub mod nxm;
pub mod port;
pub mod action;
pub mod oxm;
pub mod error;
pub mod decode;
pub mod action_list;
pub mod roundtrip;
pub mod version;
pub mod match_fields;
pub mod flow;
pub mod vconn;
