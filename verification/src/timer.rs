//! Hardware timer types: the enumerations shared between the timer drivers
//! and their callers.
//!
//! The count-down and PWM drivers themselves program each timer instance's
//! register block directly and live outside this crate; what is defined here
//! is the data they exchange with callers, and the bit-level encodings of the
//! capture/compare configuration fields.

use vstd::prelude::*;
use crate::rcc::Clocks;
use crate::time::Hertz;

verus! {

/// A requested timer period that no prescaler/reload pair can reach.
#[derive(Clone, Copy, PartialEq, Eq, Structural, Debug)]
pub struct ValueError {}

/// A hardware timer: one timer peripheral instance, the frozen clocks it
/// divides, and the timeout it was configured with.
pub struct Timer<TIM> {
    pub clocks: Clocks,
    pub tim: TIM,
    pub timeout: Hertz,
}

/// Interrupt events.
pub enum Event {
    /// Timer timed out / count down ended.
    TimeOut,
}

/// Output alignment.
#[derive(Clone, Copy, Debug)]
pub enum Alignment {
    Edge,
    Center1,
    Center2,
    Center3,
}

impl Alignment {
    /// The `CMS` center-aligned-mode-selection field value.
    pub open spec fn spec_bits(self) -> u8 {
        match self {
            Alignment::Edge => 0b00,
            Alignment::Center1 => 0b01,
            Alignment::Center2 => 0b10,
            Alignment::Center3 => 0b11,
        }
    }

    /// The `CMS` center-aligned-mode-selection field value.
    pub fn bits(&self) -> (r: u8)
        ensures
            r == self.spec_bits(),
    {
        match self {
            Alignment::Edge => 0b00,
            Alignment::Center1 => 0b01,
            Alignment::Center2 => 0b10,
            Alignment::Center3 => 0b11,
        }
    }
}

/// A timer's four capture/compare channels.
#[derive(Clone, Copy, Debug)]
pub enum Channel {
    One,
    Two,
    Three,
    Four,
}

/// Capture/Compare selection.
/// This bit-field defines the direction of the channel (input/output) as
/// well as the used input.
#[derive(Clone, Copy, Debug)]
pub enum CaptureCompare {
    Output,
    InputTi1,
    InputTi2,
    InputTrc,
}

impl CaptureCompare {
    /// The `CCxS` register field value for this selection.
    pub open spec fn spec_bits(self) -> u8 {
        match self {
            CaptureCompare::Output => 0b00,
            CaptureCompare::InputTi1 => 0b01,
            CaptureCompare::InputTi2 => 0b10,
            CaptureCompare::InputTrc => 0b11,
        }
    }

    /// The `CCxS` register field value for this selection.
    pub fn bits(&self) -> (r: u8)
        ensures
            r == self.spec_bits(),
    {
        match self {
            CaptureCompare::Output => 0b00,
            CaptureCompare::InputTi1 => 0b01,
            CaptureCompare::InputTi2 => 0b10,
            CaptureCompare::InputTrc => 0b11,
        }
    }
}

/// Capture/Compare output polarity. Defaults to `ActiveHigh` in hardware.
#[derive(Clone, Copy, Debug)]
pub enum Polarity {
    ActiveHigh,
    ActiveLow,
}

impl Polarity {
    /// For use with `set_bit()`.
    pub fn _bit(&self) -> (r: bool)
        ensures
            r == (self is ActiveLow),
    {
        match self {
            Polarity::ActiveHigh => false,
            Polarity::ActiveLow => true,
        }
    }
}

/// The behavior of the output reference signal, from which the channel
/// output and its complement are derived: frozen, forced levels, the two PWM
/// modes, the retriggerable one-pulse modes, and the combined and asymmetric
/// PWM pairings.
#[derive(Clone, Copy, Debug)]
pub enum OutputCompare {
    /// The comparison has no effect on the output: a pure timing base.
    Frozen,
    /// Force the channel active on match.
    Active,
    /// Force the channel inactive on match.
    Inactive,
    /// Force the output low regardless of the counter.
    ForceInactive,
    /// Force the output high regardless of the counter.
    ForceActive,
    /// Active while the counter is below the compare value.
    Pwm1,
    /// Inactive while the counter is below the compare value.
    Pwm2,
    RetriggerableOpmMode1,
    RetriggerableOpmMode2,
    CombinedPwm1,
    CombinedPwm2,
    AsymmetricPwm1,
    AsymmetricPwm2,
}

impl OutputCompare {
    /// The full four-bit `OCxM` mode value.
    pub open spec fn spec_bits(self) -> u8 {
        match self {
            OutputCompare::Frozen => 0b0000,
            OutputCompare::Active => 0b0001,
            OutputCompare::Inactive => 0b0010,
            OutputCompare::ForceInactive => 0b0100,
            OutputCompare::ForceActive => 0b0101,
            OutputCompare::Pwm1 => 0b0110,
            OutputCompare::Pwm2 => 0b0111,
            OutputCompare::RetriggerableOpmMode1 => 0b1000,
            OutputCompare::RetriggerableOpmMode2 => 0b1001,
            OutputCompare::CombinedPwm1 => 0b1100,
            OutputCompare::CombinedPwm2 => 0b1101,
            OutputCompare::AsymmetricPwm1 => 0b1110,
            OutputCompare::AsymmetricPwm2 => 0b1111,
        }
    }

    /// The full four-bit `OCxM` mode value.
    pub fn bits(&self) -> (r: u8)
        ensures
            r == self.spec_bits(),
    {
        match self {
            OutputCompare::Frozen => 0b0000,
            OutputCompare::Active => 0b0001,
            OutputCompare::Inactive => 0b0010,
            OutputCompare::ForceInactive => 0b0100,
            OutputCompare::ForceActive => 0b0101,
            OutputCompare::Pwm1 => 0b0110,
            OutputCompare::Pwm2 => 0b0111,
            OutputCompare::RetriggerableOpmMode1 => 0b1000,
            OutputCompare::RetriggerableOpmMode2 => 0b1001,
            OutputCompare::CombinedPwm1 => 0b1100,
            OutputCompare::CombinedPwm2 => 0b1101,
            OutputCompare::AsymmetricPwm1 => 0b1110,
            OutputCompare::AsymmetricPwm2 => 0b1111,
        }
    }

    /// The mode field is split in hardware between its left-most bit and the
    /// right three. Get the left bit, as a boolean; the right three are the
    /// low bits of the mode value.
    pub fn left_bit(&self) -> (r: bool)
        ensures
            r == (self.spec_bits() >= 0b1000),
    {
        matches!(
            self,
            Self::RetriggerableOpmMode1
                | Self::RetriggerableOpmMode2
                | Self::CombinedPwm1
                | Self::CombinedPwm2
                | Self::AsymmetricPwm1
                | Self::AsymmetricPwm2
        )
    }
}

} // verus!
