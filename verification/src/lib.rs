//! Host-side driver core for a USB-HID addressable-RGB keyboard.
//!
//! The crate encodes and decodes the vendor-specific lighting protocol the
//! keyboard firmware expects: 9-byte feature-report commands, 6-bit-per-channel
//! color payloads, the four-plane picture upload, and the color read-back
//! response. All protocol logic is verified; the HID transport itself is left
//! to the caller, which performs the byte exchanges this crate prescribes.

pub mod codec;
pub mod color;
pub mod error;
pub mod modes;
pub mod planar;
pub mod session;
