//! What the devices of the family have in common: the short messages and the
//! system-exclusive messages that they send.

pub mod midi;
pub mod query;
pub mod sysex;
