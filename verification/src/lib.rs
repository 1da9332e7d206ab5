//! Verified protocol logic for Open vSwitch: OpenFlow action encoding, OVSDB
//! transactions and replicas, and connection management.
pub mod wire;
pub mod text;
pub mod openflow;
pub mod transport;
pub mod ovsdb;
