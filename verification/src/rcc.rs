//! Summary types handed to the peripheral drivers that consume the clock
//! tree's computed speeds.

use vstd::prelude::*;
use crate::time::Hertz;

verus! {

/// MSI oscillator frequency ranges, named by their nominal frequency.
#[derive(Clone, Copy, PartialEq, Eq, Structural, Debug)]
pub enum MsiFreq {
    RANGE100K,
    RANGE200K,
    RANGE400K,
    RANGE800K,
    RANGE1M,
    RANGE2M,
    RANGE4M,
    RANGE8M,
    RANGE16M,
    RANGE24M,
    RANGE32M,
    RANGE48M,
}

/// The oscillator feeding the main PLL.
#[derive(Clone, Copy, PartialEq, Eq, Structural, Debug)]
pub enum PllSource {
    MSI,
    HSI16,
    HSE,
}

/// Frozen bus speeds and oscillator selections, in the shape the peripheral
/// drivers (serial, timer, i2c) read.
#[derive(Clone, Copy, PartialEq, Eq, Structural, Debug)]
pub struct Clocks {
    pub hclk: Hertz,
    pub hsi48: bool,
    pub msi: Option<MsiFreq>,
    pub lsi: bool,
    pub lse: bool,
    pub pclk1: Hertz,
    pub pclk2: Hertz,
    pub ppre1: u8,
    pub ppre2: u8,
    pub sysclk: Hertz,
    pub pll_source: Option<PllSource>,
}

} // verus!
