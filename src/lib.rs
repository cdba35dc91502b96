//! Conversions between the Windows Runtime Bluetooth LE layer and the
//! portable domain model: communication status codes, 128-bit identifiers,
//! read buffers and characteristic capability bits.
pub mod buffer;
pub mod error;
pub mod identifier;
pub mod props;
pub mod status;
