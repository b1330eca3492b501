//! A verified entry-point layer over a native graphics API reached through
//! function pointers: status translation, function-table loading, the
//! two-call enumeration protocol, and per-tier facades.
pub mod status;
pub mod error;
pub mod table;
pub mod enumerate;
pub mod device;
pub mod instance;
