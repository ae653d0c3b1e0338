//! Configuration enumerations for the analog-to-digital converter.
//!
//! The one-shot sampling driver itself programs the converter's register
//! block directly and lives outside this crate; only the register-field
//! enumerations it shares with callers are defined here.

use vstd::prelude::*;

verus! {

/// ADC resolution setting.
///
/// The default setting is 12 bits.
#[derive(Clone, Copy, Debug, Eq, PartialEq, Structural)]
pub enum Resolution {
    /// 12-bit resolution
    Bits12,
    /// 10-bit resolution
    Bits10,
    /// 8-bit resolution
    Bits8,
    /// 6-bit resolution
    Bits6,
}

impl Resolution {
    /// The bit pattern of the `RES` register field for this setting.
    pub open spec fn spec_bits(self) -> u8 {
        match self {
            Resolution::Bits12 => 0b00,
            Resolution::Bits10 => 0b01,
            Resolution::Bits8 => 0b10,
            Resolution::Bits6 => 0b11,
        }
    }

    /// The bit pattern of the `RES` register field for this setting.
    pub fn bits(&self) -> (r: u8)
        ensures
            r == self.spec_bits(),
    {
        match self {
            Resolution::Bits12 => 0b00,
            Resolution::Bits10 => 0b01,
            Resolution::Bits8 => 0b10,
            Resolution::Bits6 => 0b11,
        }
    }
}

impl Default for Resolution {
    /// The hardware default of 12 bits.
    fn default() -> (r: Self)
        ensures
            r == Resolution::Bits12,
    {
        Resolution::Bits12
    }
}

/// ADC sample time.
///
/// The default setting is 2.5 ADC clock cycles.
#[derive(Clone, Copy, Debug, Eq, PartialEq, Structural)]
pub enum SampleTime {
    /// 2.5 ADC clock cycles
    Cycles2_5,
    /// 6.5 ADC clock cycles
    Cycles6_5,
    /// 12.5 ADC clock cycles
    Cycles12_5,
    /// 24.5 ADC clock cycles
    Cycles24_5,
    /// 47.5 ADC clock cycles
    Cycles47_5,
    /// 92.5 ADC clock cycles
    Cycles92_5,
    /// 247.5 ADC clock cycles
    Cycles247_5,
    /// 640.5 ADC clock cycles
    Cycles640_5,
}

impl SampleTime {
    /// The bit pattern of a channel's `SMP` register field for this setting.
    pub open spec fn spec_bits(self) -> u8 {
        match self {
            SampleTime::Cycles2_5 => 0b000,
            SampleTime::Cycles6_5 => 0b001,
            SampleTime::Cycles12_5 => 0b010,
            SampleTime::Cycles24_5 => 0b011,
            SampleTime::Cycles47_5 => 0b100,
            SampleTime::Cycles92_5 => 0b101,
            SampleTime::Cycles247_5 => 0b110,
            SampleTime::Cycles640_5 => 0b111,
        }
    }

    /// The bit pattern of a channel's `SMP` register field for this setting.
    pub fn bits(&self) -> (r: u8)
        ensures
            r == self.spec_bits(),
    {
        match self {
            SampleTime::Cycles2_5 => 0b000,
            SampleTime::Cycles6_5 => 0b001,
            SampleTime::Cycles12_5 => 0b010,
            SampleTime::Cycles24_5 => 0b011,
            SampleTime::Cycles47_5 => 0b100,
            SampleTime::Cycles92_5 => 0b101,
            SampleTime::Cycles247_5 => 0b110,
            SampleTime::Cycles640_5 => 0b111,
        }
    }
}

impl Default for SampleTime {
    /// The hardware default of 2.5 cycles.
    fn default() -> (r: Self)
        ensures
            r == SampleTime::Cycles2_5,
    {
        SampleTime::Cycles2_5
    }
}

} // verus!
