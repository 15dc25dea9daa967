//! Error kinds surfaced by the driver. No operation retries: every failure
//! aborts the current operation and is returned to the caller.

use vstd::prelude::*;

verus! {

#[derive(Debug, PartialEq, Eq)]
pub enum CbError {
    /// Enumeration found no lighting interface matching the vendor and
    /// product IDs.
    DeviceNotFound,
    /// The underlying HID I/O call failed; carries the transport's message.
    TransportError(String),
    /// A successfully transported response violated a length or shape
    /// invariant of the protocol.
    ProtocolError(String),
}

} // verus!
