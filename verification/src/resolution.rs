//! The sensor's measurement resolution and its configuration-register
//! encoding.
//!
//! The sensor stores one of four resolution levels in its configuration
//! register. The encoding is a closed bijection between the four variants
//! and four byte values; every other byte value is invalid and decodes to
//! `None`.

use vstd::prelude::*;

verus! {

/// The measurement resolution of the sensor, in bits.
///
/// The resolution determines the weight of one least-significant bit of the
/// raw temperature reading: at 12 bits one LSB is 1/16 °C, at 9 bits it is
/// 1/2 °C.
#[derive(Clone, Copy, Debug, PartialEq, Eq, Structural)]
pub enum Resolution {
    Bits9,
    Bits10,
    Bits11,
    Bits12,
}

impl Resolution {
    /// The configuration-register byte that encodes this resolution.
    pub open spec fn spec_to_config_register(self) -> u8 {
        match self {
            Resolution::Bits9 => 0x1f,
            Resolution::Bits10 => 0x3f,
            Resolution::Bits11 => 0x5f,
            Resolution::Bits12 => 0x7f,
        }
    }

    /// The resolution encoded by a configuration-register byte, if the byte
    /// is one of the four valid encodings.
    pub open spec fn spec_from_config_register(config: u8) -> Option<Resolution> {
        match config {
            0x1f => Some(Resolution::Bits9),
            0x3f => Some(Resolution::Bits10),
            0x5f => Some(Resolution::Bits11),
            0x7f => Some(Resolution::Bits12),
            _ => None,
        }
    }

    /// How many sixteenths of a degree Celsius one unit of the raw
    /// temperature reading is worth at this resolution.
    ///
    /// At 12 bits the raw reading is already in sixteenths (divide by 16 for
    /// degrees); each step down in resolution doubles the weight of one raw
    /// unit.
    pub open spec fn spec_scale_sixteenths(self) -> int {
        match self {
            Resolution::Bits9 => 8,
            Resolution::Bits10 => 4,
            Resolution::Bits11 => 2,
            Resolution::Bits12 => 1,
        }
    }

    /// Encodes this resolution as its configuration-register byte.
    pub fn to_config_register(&self) -> (r: u8)
        ensures
            r == self.spec_to_config_register(),
    {
        match self {
            Resolution::Bits9 => 0x1f,
            Resolution::Bits10 => 0x3f,
            Resolution::Bits11 => 0x5f,
            Resolution::Bits12 => 0x7f,
        }
    }

    /// Decodes a configuration-register byte; returns `None` for any byte
    /// that is not one of the four valid encodings.
    pub fn from_config_register(config: u8) -> (r: Option<Resolution>)
        ensures
            r == Self::spec_from_config_register(config),
    {
        match config {
            0x1f => Some(Resolution::Bits9),
            0x3f => Some(Resolution::Bits10),
            0x5f => Some(Resolution::Bits11),
            0x7f => Some(Resolution::Bits12),
            _ => None,
        }
    }

    /// How many sixteenths of a degree Celsius one raw unit is worth at this
    /// resolution.
    pub fn scale_sixteenths(&self) -> (r: i32)
        ensures
            r == self.spec_scale_sixteenths(),
    {
        match self {
            Resolution::Bits9 => 8,
            Resolution::Bits10 => 4,
            Resolution::Bits11 => 2,
            Resolution::Bits12 => 1,
        }
    }
}

/// Law: encoding a resolution and decoding the resulting byte gives the
/// resolution back, for every variant.
pub proof fn lemma_config_register_round_trip(r: Resolution)
    ensures
        Resolution::spec_from_config_register(r.spec_to_config_register()) == Some(r),
{
}

/// Law: every byte other than the four valid encodings decodes to `None`.
pub proof fn lemma_invalid_config_register_rejected(config: u8)
    requires
        config != 0x1f,
        config != 0x3f,
        config != 0x5f,
        config != 0x7f,
    ensures
        Resolution::spec_from_config_register(config) is None,
{
}

} // verus!
