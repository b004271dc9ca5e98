//! Verified core of a firmware driver that hooks the variable-reading runtime
//! service: it swaps one entry of a dispatch table, forwards every call to the
//! original service, and logs each call.

pub mod hex;
pub mod status;
pub mod guid;
pub mod name;
pub mod record;
pub mod bytes;
pub mod table;
pub mod hook;
pub mod entry;
