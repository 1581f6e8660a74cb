//! The protocol's command bytes.
//!
//! Every operation of the driver selects a device (or all devices) and then
//! writes one of these opcodes; no other component spells out a command byte
//! directly.

use vstd::prelude::*;

verus! {

/// Starts a temperature conversion on the selected device(s).
pub const CONVERT_TEMP: u8 = 0x44;

/// Writes the three configuration bytes (alarm high, alarm low, resolution)
/// to the scratchpad of the selected device.
pub const WRITE_SCRATCHPAD: u8 = 0x4e;

/// Reads the 9-byte scratchpad of the selected device.
pub const READ_SCRATCHPAD: u8 = 0xbe;

/// Copies the scratchpad's configuration bytes into EEPROM.
pub const COPY_SCRATCHPAD: u8 = 0x48;

/// Restores the configuration bytes from EEPROM into the scratchpad.
pub const RECALL_EEPROM: u8 = 0xb8;

} // verus!
