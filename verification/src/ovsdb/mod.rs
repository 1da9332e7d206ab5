//! OVSDB client logic: JSON values, transactions, rows and the in-memory
//! replica of a database.
pub mod assoc;
pub mod json;
pub mod uuid;
pub mod ops;
pub mod transaction;
pub mod row;
pub mod schema;
pub mod idl;
pub mod error;
pub mod client;
pub mod topology;
