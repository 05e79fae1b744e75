//! Attribute handles of the Bluetooth Attribute Protocol (ATT): the 16-bit
//! handle type, the raw handle range as it is read off the wire, and the
//! validated handle range, together with their little-endian wire codec.

pub mod bytes;
pub mod error;
pub mod handle;
