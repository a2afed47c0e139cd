//! The bit fields of `bmRequestType` in a setup packet.
use vstd::prelude::*;

verus! {

/// Bit 7: data flows from the host to the device.
pub const DIR_OUT: u8 = 0 << 7;

/// Bit 7: data flows from the device to the host.
pub const DIR_IN: u8 = 1 << 7;

/// Bits 5..=6: a standard request.
pub const TYPE_STANDARD: u8 = 0 << 5;

/// Bits 5..=6: a class-specific request.
pub const TYPE_CLASS: u8 = 1 << 5;

/// Bits 5..=6: a vendor-specific request.
pub const TYPE_VENDOR: u8 = 2 << 5;

/// Bits 0..=4: the request is addressed to the device.
pub const RECIPIENT_DEVICE: u8 = 0;

/// Bits 0..=4: the request is addressed to an interface.
pub const RECIPIENT_INTERFACE: u8 = 1;

/// Bits 0..=4: the request is addressed to an endpoint.
pub const RECIPIENT_ENDPOINT: u8 = 2;

/// Bits 0..=4: the request is addressed to something else.
pub const RECIPIENT_OTHER: u8 = 3;

} // verus!
