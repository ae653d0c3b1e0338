//! Clock-tree configuration: scalers are chosen first, the resulting
//! frequencies are computed from them, and the result is validated against the
//! hardware's operating limits before any register is touched.
//!
//! All frequencies are integer hertz; every divider in the tree truncates.

use vstd::prelude::*;
use vstd::arithmetic::div_mod::lemma_fundamental_div_mod;
use vstd::arithmetic::div_mod::lemma_div_is_ordered;
use vstd::arithmetic::div_mod::lemma_div_is_ordered_by_denominator;
use vstd::arithmetic::div_mod::lemma_div_non_zero;
use vstd::arithmetic::div_mod::lemma_div_nonincreasing;
use vstd::arithmetic::div_mod::lemma_div_pos_is_pos;
use vstd::arithmetic::mul::lemma_mul_nonnegative;
use vstd::arithmetic::mul::lemma_mul_upper_bound;
use crate::pac::{FLASH, FlashAcr, RCC, RccCcipr, RccCfgr, RccCr, RccCrrcr, RccPllCfgr, RccPllSai1Cfgr, RccPllSai2Cfgr};
use crate::rcc;
use crate::time::Hertz;

verus! {

/// Speed out of limits.
pub struct SpeedError {}

/// Calculated clock speeds. All in hertz.
#[derive(Clone, Copy, PartialEq, Eq, Structural, Debug)]
pub struct Speeds {
    pub sysclk: u64,
    /// AHB bus, core, memory and DMA.
    pub hclk: u64,
    /// Cortex system timer.
    pub systick: u64,
    /// FCLK Cortex clock.
    pub fclk: u64,
    /// APB1 peripheral clocks.
    pub pclk1: u64,
    /// APB1 timer clocks.
    pub timer1: u64,
    /// APB2 peripheral clocks.
    pub pclk2: u64,
    /// APB2 timer clocks.
    pub timer2: u64,
    pub usb: u64,
}

/// Source selections for the 48 MHz clock that feeds USB and the
/// random-number generator.
#[derive(Clone, Copy)]
pub enum Clk48Src {
    /// Only valid for the larger family members.
    Hsi48,
    PllSai1,
    Pll,
    Msi,
}

impl Clk48Src {
    /// The `CLK48SEL` register field value for this selection.
    pub open spec fn spec_bits(self) -> u8 {
        match self {
            Clk48Src::Hsi48 => 0b00,
            Clk48Src::PllSai1 => 0b01,
            Clk48Src::Pll => 0b10,
            Clk48Src::Msi => 0b11,
        }
    }

    /// The `CLK48SEL` register field value for this selection.
    pub fn bits(&self) -> (r: u8)
        ensures
            r == self.spec_bits(),
    {
        match self {
            Clk48Src::Hsi48 => 0b00,
            Clk48Src::PllSai1 => 0b01,
            Clk48Src::Pll => 0b10,
            Clk48Src::Msi => 0b11,
        }
    }
}

/// Is a set of speeds valid?
#[derive(Clone, Copy, PartialEq, Eq, Structural, Debug)]
pub enum Validation {
    Valid,
    NotValid,
}

/// The oscillator feeding the main PLL.
#[derive(Clone, Copy, PartialEq, Eq, Structural)]
pub enum PllSrc {
    Disabled,
    Msi(MsiRange),
    Hsi,
    /// Frequency in MHz.
    Hse(u8),
}

impl PllSrc {
    /// The `PLLSRC` register field value for this selection.
    pub open spec fn spec_bits(self) -> u8 {
        match self {
            PllSrc::Disabled => 0b00,
            PllSrc::Msi(_) => 0b01,
            PllSrc::Hsi => 0b10,
            PllSrc::Hse(_) => 0b11,
        }
    }

    /// The `PLLSRC` register field value for this selection.
    pub fn bits(&self) -> (r: u8)
        ensures
            r == self.spec_bits(),
    {
        match self {
            PllSrc::Disabled => 0b00,
            PllSrc::Msi(_) => 0b01,
            PllSrc::Hsi => 0b10,
            PllSrc::Hse(_) => 0b11,
        }
    }
}

/// The oscillator (or PLL) driving the system clock.
#[derive(Clone, Copy, PartialEq, Eq, Structural)]
pub enum InputSrc {
    Msi(MsiRange),
    Hsi,
    /// Frequency in MHz.
    Hse(u8),
    Pll(PllSrc),
}

impl InputSrc {
    /// The `SW` system-clock-switch register field value for this selection.
    pub open spec fn spec_bits(self) -> u8 {
        match self {
            InputSrc::Msi(_) => 0b00,
            InputSrc::Hsi => 0b01,
            InputSrc::Hse(_) => 0b10,
            InputSrc::Pll(_) => 0b11,
        }
    }

    /// The `SW` system-clock-switch register field value for this selection.
    pub fn bits(&self) -> (r: u8)
        ensures
            r == self.spec_bits(),
    {
        match self {
            InputSrc::Msi(_) => 0b00,
            InputSrc::Hsi => 0b01,
            InputSrc::Hse(_) => 0b10,
            InputSrc::Pll(_) => 0b11,
        }
    }
}

/// The twelve selectable frequency ranges of the MSI oscillator.
#[derive(Clone, Copy, PartialEq, Eq, Structural)]
pub enum MsiRange {
    Range0,
    Range1,
    Range2,
    Range3,
    Range4,
    Range5,
    Range6,
    Range7,
    Range8,
    Range9,
    Range10,
    Range11,
}

impl MsiRange {
    /// The oscillator's nominal frequency in hertz for this range.
    pub open spec fn spec_value(self) -> u32 {
        match self {
            MsiRange::Range0 => 100_000,
            MsiRange::Range1 => 200_000,
            MsiRange::Range2 => 400_000,
            MsiRange::Range3 => 800_000,
            MsiRange::Range4 => 1_000_000,
            MsiRange::Range5 => 2_000_000,
            MsiRange::Range6 => 4_000_000,
            MsiRange::Range7 => 8_000_000,
            MsiRange::Range8 => 16_000_000,
            MsiRange::Range9 => 24_000_000,
            MsiRange::Range10 => 32_000_000,
            MsiRange::Range11 => 48_000_000,
        }
    }

    /// Calculate the approximate frequency, in Hz.
    fn value(&self) -> (r: u32)
        ensures
            r == self.spec_value(),
    {
        match self {
            MsiRange::Range0 => 100_000,
            MsiRange::Range1 => 200_000,
            MsiRange::Range2 => 400_000,
            MsiRange::Range3 => 800_000,
            MsiRange::Range4 => 1_000_000,
            MsiRange::Range5 => 2_000_000,
            MsiRange::Range6 => 4_000_000,
            MsiRange::Range7 => 8_000_000,
            MsiRange::Range8 => 16_000_000,
            MsiRange::Range9 => 24_000_000,
            MsiRange::Range10 => 32_000_000,
            MsiRange::Range11 => 48_000_000,
        }
    }

    /// The `MSIRANGE` register field value for this range.
    pub open spec fn spec_bits(self) -> u8 {
        match self {
            MsiRange::Range0 => 0b0000,
            MsiRange::Range1 => 0b0001,
            MsiRange::Range2 => 0b0010,
            MsiRange::Range3 => 0b0011,
            MsiRange::Range4 => 0b0100,
            MsiRange::Range5 => 0b0101,
            MsiRange::Range6 => 0b0110,
            MsiRange::Range7 => 0b0111,
            MsiRange::Range8 => 0b1000,
            MsiRange::Range9 => 0b1001,
            MsiRange::Range10 => 0b1010,
            MsiRange::Range11 => 0b1011,
        }
    }

    /// The `MSIRANGE` register field value for this range.
    pub fn bits(&self) -> (r: u8)
        ensures
            r == self.spec_bits(),
    {
        match self {
            MsiRange::Range0 => 0b0000,
            MsiRange::Range1 => 0b0001,
            MsiRange::Range2 => 0b0010,
            MsiRange::Range3 => 0b0011,
            MsiRange::Range4 => 0b0100,
            MsiRange::Range5 => 0b0101,
            MsiRange::Range6 => 0b0110,
            MsiRange::Range7 => 0b0111,
            MsiRange::Range8 => 0b1000,
            MsiRange::Range9 => 0b1001,
            MsiRange::Range10 => 0b1010,
            MsiRange::Range11 => 0b1011,
        }
    }

    /// For backwards compatibility with `rcc::MsiFreq`.
    fn to_rcc_msi(&self) -> (r: rcc::MsiFreq)
        ensures
            r == self.spec_to_rcc_msi(),
    {
        match self {
            MsiRange::Range0 => rcc::MsiFreq::RANGE100K,
            MsiRange::Range1 => rcc::MsiFreq::RANGE200K,
            MsiRange::Range2 => rcc::MsiFreq::RANGE400K,
            MsiRange::Range3 => rcc::MsiFreq::RANGE800K,
            MsiRange::Range4 => rcc::MsiFreq::RANGE1M,
            MsiRange::Range5 => rcc::MsiFreq::RANGE2M,
            MsiRange::Range6 => rcc::MsiFreq::RANGE4M,
            MsiRange::Range7 => rcc::MsiFreq::RANGE8M,
            MsiRange::Range8 => rcc::MsiFreq::RANGE16M,
            MsiRange::Range9 => rcc::MsiFreq::RANGE24M,
            MsiRange::Range10 => rcc::MsiFreq::RANGE32M,
            MsiRange::Range11 => rcc::MsiFreq::RANGE48M,
        }
    }

    /// The `rcc::MsiFreq` name of this range.
    pub open spec fn spec_to_rcc_msi(self) -> rcc::MsiFreq {
        match self {
            MsiRange::Range0 => rcc::MsiFreq::RANGE100K,
            MsiRange::Range1 => rcc::MsiFreq::RANGE200K,
            MsiRange::Range2 => rcc::MsiFreq::RANGE400K,
            MsiRange::Range3 => rcc::MsiFreq::RANGE800K,
            MsiRange::Range4 => rcc::MsiFreq::RANGE1M,
            MsiRange::Range5 => rcc::MsiFreq::RANGE2M,
            MsiRange::Range6 => rcc::MsiFreq::RANGE4M,
            MsiRange::Range7 => rcc::MsiFreq::RANGE8M,
            MsiRange::Range8 => rcc::MsiFreq::RANGE16M,
            MsiRange::Range9 => rcc::MsiFreq::RANGE24M,
            MsiRange::Range10 => rcc::MsiFreq::RANGE32M,
            MsiRange::Range11 => rcc::MsiFreq::RANGE48M,
        }
    }
}

/// Input pre-divider (`RCC_CFGR2`).
#[derive(Clone, Copy)]
pub enum Prediv {
    Div1,
    Div2,
    Div3,
    Div4,
    Div5,
    Div6,
    Div7,
    Div8,
}

impl Prediv {
    /// The division factor this setting stands for.
    pub open spec fn spec_value(self) -> u8 {
        match self {
            Prediv::Div1 => 1,
            Prediv::Div2 => 2,
            Prediv::Div3 => 3,
            Prediv::Div4 => 4,
            Prediv::Div5 => 5,
            Prediv::Div6 => 6,
            Prediv::Div7 => 7,
            Prediv::Div8 => 8,
        }
    }

    /// The division factor this setting stands for.
    pub fn value(&self) -> (r: u8)
        ensures
            r == self.spec_value(),
    {
        match self {
            Prediv::Div1 => 1,
            Prediv::Div2 => 2,
            Prediv::Div3 => 3,
            Prediv::Div4 => 4,
            Prediv::Div5 => 5,
            Prediv::Div6 => 6,
            Prediv::Div7 => 7,
            Prediv::Div8 => 8,
        }
    }
}

/// PLL input division factor.
#[derive(Clone, Copy)]
pub enum Pllm {
    Div1,
    Div2,
    Div3,
    Div4,
    Div5,
    Div6,
    Div7,
    Div8,
}

impl Pllm {
    /// The division factor this setting stands for.
    pub open spec fn spec_value(self) -> u8 {
        match self {
            Pllm::Div1 => 1,
            Pllm::Div2 => 2,
            Pllm::Div3 => 3,
            Pllm::Div4 => 4,
            Pllm::Div5 => 5,
            Pllm::Div6 => 6,
            Pllm::Div7 => 7,
            Pllm::Div8 => 8,
        }
    }

    /// The division factor this setting stands for.
    pub fn value(&self) -> (r: u8)
        ensures
            r == self.spec_value(),
    {
        match self {
            Pllm::Div1 => 1,
            Pllm::Div2 => 2,
            Pllm::Div3 => 3,
            Pllm::Div4 => 4,
            Pllm::Div5 => 5,
            Pllm::Div6 => 6,
            Pllm::Div7 => 7,
            Pllm::Div8 => 8,
        }
    }

    /// The `PLLM` register field value for this setting.
    pub open spec fn spec_bits(self) -> u8 {
        match self {
            Pllm::Div1 => 0b000,
            Pllm::Div2 => 0b001,
            Pllm::Div3 => 0b010,
            Pllm::Div4 => 0b011,
            Pllm::Div5 => 0b100,
            Pllm::Div6 => 0b101,
            Pllm::Div7 => 0b110,
            Pllm::Div8 => 0b111,
        }
    }

    /// The `PLLM` register field value for this setting.
    pub fn bits(&self) -> (r: u8)
        ensures
            r == self.spec_bits(),
    {
        match self {
            Pllm::Div1 => 0b000,
            Pllm::Div2 => 0b001,
            Pllm::Div3 => 0b010,
            Pllm::Div4 => 0b011,
            Pllm::Div5 => 0b100,
            Pllm::Div6 => 0b101,
            Pllm::Div7 => 0b110,
            Pllm::Div8 => 0b111,
        }
    }
}

/// Main PLL division factor for PLLCLK (system clock).
#[derive(Clone, Copy)]
pub enum Pllr {
    Div2,
    Div4,
    Div6,
    Div8,
}

impl Pllr {
    /// The division factor this setting stands for.
    pub open spec fn spec_value(self) -> u8 {
        match self {
            Pllr::Div2 => 2,
            Pllr::Div4 => 4,
            Pllr::Div6 => 6,
            Pllr::Div8 => 8,
        }
    }

    /// The division factor this setting stands for.
    pub fn value(&self) -> (r: u8)
        ensures
            r == self.spec_value(),
    {
        match self {
            Pllr::Div2 => 2,
            Pllr::Div4 => 4,
            Pllr::Div6 => 6,
            Pllr::Div8 => 8,
        }
    }

    /// The `PLLR` register field value for this setting.
    pub open spec fn spec_bits(self) -> u8 {
        match self {
            Pllr::Div2 => 0b00,
            Pllr::Div4 => 0b01,
            Pllr::Div6 => 0b10,
            Pllr::Div8 => 0b11,
        }
    }

    /// The `PLLR` register field value for this setting.
    pub fn bits(&self) -> (r: u8)
        ensures
            r == self.spec_bits(),
    {
        match self {
            Pllr::Div2 => 0b00,
            Pllr::Div4 => 0b01,
            Pllr::Div6 => 0b10,
            Pllr::Div8 => 0b11,
        }
    }
}

/// Division factor for the AHB clock. Also known as AHB Prescaler.
#[derive(Clone, Copy)]
pub enum HclkPrescaler {
    Div1,
    Div2,
    Div4,
    Div8,
    Div16,
    Div64,
    Div128,
    Div256,
    Div512,
}

impl HclkPrescaler {
    /// The division factor this setting stands for.
    pub open spec fn spec_value(self) -> u16 {
        match self {
            HclkPrescaler::Div1 => 1,
            HclkPrescaler::Div2 => 2,
            HclkPrescaler::Div4 => 4,
            HclkPrescaler::Div8 => 8,
            HclkPrescaler::Div16 => 16,
            HclkPrescaler::Div64 => 64,
            HclkPrescaler::Div128 => 128,
            HclkPrescaler::Div256 => 256,
            HclkPrescaler::Div512 => 512,
        }
    }

    /// The division factor this setting stands for.
    pub fn value(&self) -> (r: u16)
        ensures
            r == self.spec_value(),
    {
        match self {
            HclkPrescaler::Div1 => 1,
            HclkPrescaler::Div2 => 2,
            HclkPrescaler::Div4 => 4,
            HclkPrescaler::Div8 => 8,
            HclkPrescaler::Div16 => 16,
            HclkPrescaler::Div64 => 64,
            HclkPrescaler::Div128 => 128,
            HclkPrescaler::Div256 => 256,
            HclkPrescaler::Div512 => 512,
        }
    }

    /// The `HPRE` register field value for this setting.
    pub open spec fn spec_bits(self) -> u8 {
        match self {
            HclkPrescaler::Div1 => 0b0000,
            HclkPrescaler::Div2 => 0b1000,
            HclkPrescaler::Div4 => 0b1001,
            HclkPrescaler::Div8 => 0b1010,
            HclkPrescaler::Div16 => 0b1011,
            HclkPrescaler::Div64 => 0b1100,
            HclkPrescaler::Div128 => 0b1101,
            HclkPrescaler::Div256 => 0b1110,
            HclkPrescaler::Div512 => 0b1111,
        }
    }

    /// The `HPRE` register field value for this setting.
    pub fn bits(&self) -> (r: u8)
        ensures
            r == self.spec_bits(),
    {
        match self {
            HclkPrescaler::Div1 => 0b0000,
            HclkPrescaler::Div2 => 0b1000,
            HclkPrescaler::Div4 => 0b1001,
            HclkPrescaler::Div8 => 0b1010,
            HclkPrescaler::Div16 => 0b1011,
            HclkPrescaler::Div64 => 0b1100,
            HclkPrescaler::Div128 => 0b1101,
            HclkPrescaler::Div256 => 0b1110,
            HclkPrescaler::Div512 => 0b1111,
        }
    }
}

/// For use with `RCC_APBPPRE1`, and `RCC_APBPPRE2`. Ie, low-speed and
/// high-speed prescalers respectively.
#[derive(Clone, Copy)]
pub enum ApbPrescaler {
    Div1,
    Div2,
    Div4,
    Div8,
    Div16,
}

impl ApbPrescaler {
    /// The division factor this setting stands for.
    pub open spec fn spec_value(self) -> u8 {
        match self {
            ApbPrescaler::Div1 => 1,
            ApbPrescaler::Div2 => 2,
            ApbPrescaler::Div4 => 4,
            ApbPrescaler::Div8 => 8,
            ApbPrescaler::Div16 => 16,
        }
    }

    /// The division factor this setting stands for.
    pub fn value(&self) -> (r: u8)
        ensures
            r == self.spec_value(),
    {
        match self {
            ApbPrescaler::Div1 => 1,
            ApbPrescaler::Div2 => 2,
            ApbPrescaler::Div4 => 4,
            ApbPrescaler::Div8 => 8,
            ApbPrescaler::Div16 => 16,
        }
    }

    /// The `PPRE` register field value for this setting.
    pub open spec fn spec_bits(self) -> u8 {
        match self {
            ApbPrescaler::Div1 => 0b000,
            ApbPrescaler::Div2 => 0b100,
            ApbPrescaler::Div4 => 0b101,
            ApbPrescaler::Div8 => 0b110,
            ApbPrescaler::Div16 => 0b111,
        }
    }

    /// The `PPRE` register field value for this setting.
    pub fn bits(&self) -> (r: u8)
        ensures
            r == self.spec_bits(),
    {
        match self {
            ApbPrescaler::Div1 => 0b000,
            ApbPrescaler::Div2 => 0b100,
            ApbPrescaler::Div4 => 0b101,
            ApbPrescaler::Div8 => 0b110,
            ApbPrescaler::Div16 => 0b111,
        }
    }
}

/// The frequency in hertz of the oscillator a PLL source selection names.
pub open spec fn pll_src_freq_hz(src: PllSrc) -> int {
    match src {
        PllSrc::Disabled => 0,
        PllSrc::Msi(range) => range.spec_value() as int,
        PllSrc::Hsi => 16_000_000,
        PllSrc::Hse(freq) => freq * 1_000_000,
    }
}

/// The frequency in hertz of the root oscillator an input selection names.
pub open spec fn input_freq_hz(src: InputSrc) -> int {
    match src {
        InputSrc::Msi(range) => range.spec_value() as int,
        InputSrc::Hsi => 16_000_000,
        InputSrc::Hse(freq) => freq * 1_000_000,
        InputSrc::Pll(pll_src) => pll_src_freq_hz(pll_src),
    }
}

/// The system clock in hertz: the PLL chain when the PLL is selected, the
/// root oscillator's frequency directly otherwise.
pub open spec fn sysclk_hz_from(input_src: InputSrc, pllm: Pllm, pll_vco_mul: u8, pllr: Pllr) -> int {
    match input_src {
        InputSrc::Pll(pll_src) => pll_src_freq_hz(pll_src) / pllm.spec_value() as int
            * pll_vco_mul as int / pllr.spec_value() as int,
        _ => input_freq_hz(input_src),
    }
}

/// Settings used to configure clocks.
pub struct Clocks {
    pub input_src: InputSrc,
    /// PLL divider.
    pub pllm: Pllm,
    /// PLL multiplier. Valid range of 7 to 86.
    pub pll_vco_mul: u8,
    /// PLL SAI1 multiplier. Valid range of 7 to 86.
    pub pll_sai1_mul: u8,
    /// PLL SAI2 multiplier. Valid range of 7 to 86.
    pub pll_sai2_mul: u8,
    pub pllr: Pllr,
    /// The AHB clock divider.
    pub hclk_prescaler: HclkPrescaler,
    /// APB1 divider, for the low speed peripheral bus.
    pub apb1_prescaler: ApbPrescaler,
    /// APB2 divider, for the high speed peripheral bus.
    pub apb2_prescaler: ApbPrescaler,
    pub clk48_src: Clk48Src,
    pub sai1_enabled: bool,
    pub sai2_enabled: bool,
    /// Bypass the HSE output, for use with oscillators that don't need it.
    /// Saves power, and frees up the pin for use as GPIO.
    pub hse_bypass: bool,
    pub security_system: bool,
}

impl Clocks {
    /// The system clock in hertz this configuration yields.
    pub open spec fn spec_sysclk_hz(self) -> int {
        sysclk_hz_from(self.input_src, self.pllm, self.pll_vco_mul, self.pllr)
    }

    /// The USB clock in hertz: the input frequency through the PLL input
    /// divider and the first auxiliary PLL's multiplier, then the fixed
    /// divide-by-two output tap.
    pub open spec fn spec_usb_hz(self) -> int {
        input_freq_hz(self.input_src) / self.pllm.spec_value() as int
            * self.pll_sai1_mul as int / 2
    }

    /// The AHB clock in hertz.
    pub open spec fn spec_hclk_hz(self) -> int {
        self.spec_sysclk_hz() / self.hclk_prescaler.spec_value() as int
    }

    /// The APB1 peripheral clock in hertz.
    pub open spec fn spec_pclk1_hz(self) -> int {
        self.spec_hclk_hz() / self.apb1_prescaler.spec_value() as int
    }

    /// The APB2 peripheral clock in hertz.
    pub open spec fn spec_pclk2_hz(self) -> int {
        self.spec_hclk_hz() / self.apb2_prescaler.spec_value() as int
    }

    /// The APB1 timer clock: the bus clock, doubled when the bus itself is
    /// divided.
    pub open spec fn spec_timer1_hz(self) -> int {
        if self.apb1_prescaler is Div1 {
            self.spec_pclk1_hz()
        } else {
            self.spec_pclk1_hz() * 2
        }
    }

    /// The APB2 timer clock: the bus clock, doubled when the bus itself is
    /// divided.
    pub open spec fn spec_timer2_hz(self) -> int {
        if self.apb2_prescaler is Div1 {
            self.spec_pclk2_hz()
        } else {
            self.spec_pclk2_hz() * 2
        }
    }

    /// Every speed this configuration derives. The system-timer divider is
    /// not modeled (fixed at one), so `systick` and `fclk` equal `hclk`.
    pub open spec fn spec_speeds(self) -> Speeds {
        Speeds {
            sysclk: self.spec_sysclk_hz() as u64,
            hclk: self.spec_hclk_hz() as u64,
            systick: self.spec_hclk_hz() as u64,
            fclk: self.spec_hclk_hz() as u64,
            pclk1: self.spec_pclk1_hz() as u64,
            timer1: self.spec_timer1_hz() as u64,
            pclk2: self.spec_pclk2_hz() as u64,
            timer2: self.spec_timer2_hz() as u64,
            usb: self.spec_usb_hz() as u64,
        }
    }

    /// Do all three PLL multipliers lie in the hardware's accepted range?
    pub open spec fn spec_mults_ok(self) -> bool {
        &&& 7 <= self.pll_vco_mul <= 86
        &&& 7 <= self.pll_sai1_mul <= 86
        &&& 7 <= self.pll_sai2_mul <= 86
    }

    /// Does this configuration pass the main validation: multipliers in range
    /// and every bus frequency within its operating limit?
    pub open spec fn spec_valid(self) -> bool {
        self.spec_mults_ok() && speeds_within_limits(self.spec_speeds())
    }
}

/// The ceiling, in hertz, on the system and bus clocks.
pub open spec fn max_bus_hz() -> int {
    80_000_000
}

/// Are the system and bus clocks each above zero and at most the 80 MHz
/// operating ceiling?
pub open spec fn speeds_within_limits(speeds: Speeds) -> bool {
    &&& 0 < speeds.sysclk <= max_bus_hz()
    &&& 0 < speeds.hclk <= max_bus_hz()
    &&& 0 < speeds.pclk1 <= max_bus_hz()
    &&& 0 < speeds.pclk2 <= max_bus_hz()
}

/// Does the USB clock truncate to exactly 48 MHz?
pub open spec fn usb_speed_ok(speeds: Speeds) -> bool {
    speeds.usb / 1_000_000 == 48
}

/// Calculate the input frequency and the system clock it yields, in hertz.
fn calc_sysclock(input_src: InputSrc, pllm: Pllm, pll_vco_mul: u8, pllr: Pllr) -> (r: (u64, u64))
    ensures
        r.0 == input_freq_hz(input_src),
        r.1 == sysclk_hz_from(input_src, pllm, pll_vco_mul, pllr),
        r.0 <= 255_000_000,
        r.1 <= 65_025_000_000,
{
    match input_src {
        InputSrc::Pll(pll_src) => {
            let input_freq: u64 = match pll_src {
                PllSrc::Msi(range) => range.value() as u64,
                PllSrc::Hsi => 16_000_000,
                PllSrc::Hse(freq) => freq as u64 * 1_000_000,
                PllSrc::Disabled => 0,
            };
            assert(input_freq <= 255_000_000);
            let m = pllm.value() as u64;
            let divided = input_freq / m;
            proof {
                lemma_div_nonincreasing(input_freq as int, m as int);
                lemma_mul_upper_bound(divided as int, 255_000_000, pll_vco_mul as int, 255);
            }
            let multiplied = divided * pll_vco_mul as u64;
            let sysclk = multiplied / pllr.value() as u64;
            proof {
                lemma_div_nonincreasing(multiplied as int, pllr.spec_value() as int);
            }
            (input_freq, sysclk)
        }
        InputSrc::Msi(range) => {
            let f = range.value() as u64;
            (f, f)
        }
        InputSrc::Hsi => (16_000_000, 16_000_000),
        InputSrc::Hse(freq) => {
            let f = freq as u64 * 1_000_000;
            (f, f)
        }
    }
}

/// The flash wait-state count required at a given AHB frequency (hertz).
pub open spec fn spec_flash_latency(hclk_hz: int) -> u8 {
    if hclk_hz <= 16_000_000 {
        0b000
    } else if hclk_hz <= 32_000_000 {
        0b001
    } else if hclk_hz <= 48_000_000 {
        0b010
    } else if hclk_hz <= 64_000_000 {
        0b011
    } else {
        0b100
    }
}

/// The `CR` register after [`Clocks::setup`] has run on a valid
/// configuration: the selected oscillators enabled and settled, the HSE
/// bypass and clock-security bits as configured, and — when the PLL drives
/// the system clock — the PLL and its enabled auxiliaries locked.
/// The `CR` register after the oscillator-enable phase: the root oscillator
/// that the input selection names (for a PLL input, the oscillator feeding
/// the PLL) enabled and settled.
pub open spec fn spec_cr_osc_enabled(c: Clocks, before: RccCr) -> RccCr {
    match c.input_src {
        InputSrc::Msi(range) => RccCr {
            msion: true,
            msirdy: true,
            msirgsel: true,
            msirange: range.spec_bits(),
            ..before
        },
        InputSrc::Hse(_) => RccCr { hseon: true, hserdy: true, ..before },
        InputSrc::Hsi => RccCr { hsion: true, hsirdy: true, ..before },
        InputSrc::Pll(pll_src) => match pll_src {
            PllSrc::Msi(range) => RccCr {
                msion: true,
                msirdy: true,
                msirgsel: true,
                msirange: range.spec_bits(),
                ..before
            },
            PllSrc::Hse(_) => RccCr { hseon: true, hserdy: true, ..before },
            PllSrc::Hsi => RccCr { hsion: true, hsirdy: true, ..before },
            PllSrc::Disabled => before,
        },
    }
}

/// The `CR` register after [`Clocks::setup`] has run on a valid
/// configuration: the selected oscillators enabled and settled, the HSE
/// bypass and clock-security bits as configured, and — when the PLL drives
/// the system clock — the PLL and its enabled auxiliaries locked.
pub open spec fn spec_cr_after_setup(c: Clocks, before: RccCr) -> RccCr {
    let osc = spec_cr_osc_enabled(c, before);
    let with_pll = if c.input_src is Pll {
        RccCr {
            pllon: true,
            pllrdy: true,
            pllsai1on: if c.sai1_enabled { true } else { osc.pllsai1on },
            pllsai1rdy: if c.sai1_enabled { true } else { osc.pllsai1rdy },
            pllsai2on: if c.sai2_enabled { true } else { osc.pllsai2on },
            pllsai2rdy: if c.sai2_enabled { true } else { osc.pllsai2rdy },
            ..osc
        }
    } else {
        osc
    };
    RccCr { hsebyp: c.hse_bypass, csson: c.security_system, ..with_pll }
}

/// The whole RCC block after [`Clocks::setup`] has run on a valid
/// configuration. Registers the sequencer does not program keep their prior
/// values; the PLL configuration registers are touched only when the PLL
/// drives the system clock.
pub open spec fn spec_rcc_after_setup(c: Clocks, before: RCC) -> RCC {
    RCC {
        cr: spec_cr_after_setup(c, before.cr),
        cfgr: RccCfgr {
            sw: c.input_src.spec_bits(),
            hpre: c.hclk_prescaler.spec_bits(),
            ppre1: c.apb1_prescaler.spec_bits(),
            ppre2: c.apb2_prescaler.spec_bits(),
        },
        pllcfgr: if c.input_src is Pll {
            RccPllCfgr {
                pllsrc: match c.input_src {
                    InputSrc::Pll(pll_src) => pll_src.spec_bits(),
                    _ => before.pllcfgr.pllsrc,
                },
                pllm: c.pllm.spec_bits(),
                plln: c.pll_vco_mul,
                pllr: c.pllr.spec_bits(),
                pllpen: true,
                pllqen: true,
                pllren: true,
            }
        } else {
            before.pllcfgr
        },
        pllsai1cfgr: if c.input_src is Pll && c.sai1_enabled {
            RccPllSai1Cfgr {
                pllsai1n: c.pll_sai1_mul,
                pllsai1pen: true,
                pllsai1qen: true,
                pllsai1ren: true,
            }
        } else {
            before.pllsai1cfgr
        },
        pllsai2cfgr: if c.input_src is Pll && c.sai2_enabled {
            RccPllSai2Cfgr { pllsai2n: c.pll_sai2_mul, pllsai2pen: true, pllsai2ren: true }
        } else {
            before.pllsai2cfgr
        },
        ccipr: RccCcipr { clk48sel: c.clk48_src.spec_bits() },
        crrcr: if c.clk48_src is Hsi48 {
            RccCrrcr { hsi48on: true, hsi48rdy: true }
        } else {
            before.crrcr
        },
        csr: before.csr,
    }
}

impl Clocks {
    /// Set the flash wait states required at the given AHB frequency.
    fn set_flash_latency(flash: &mut FLASH, hclk: u64)
        ensures
            *final(flash) == (FLASH {
                acr: FlashAcr { latency: spec_flash_latency(hclk as int) },
            }),
    {
        if hclk <= 16_000_000 {
            flash.acr.latency = 0b000;
        } else if hclk <= 32_000_000 {
            flash.acr.latency = 0b001;
        } else if hclk <= 48_000_000 {
            flash.acr.latency = 0b010;
        } else if hclk <= 64_000_000 {
            flash.acr.latency = 0b011;
        } else {
            flash.acr.latency = 0b100;
        }
    }

    /// Oscillator-enable phase: enable the root oscillator the input
    /// selection names. On hardware each enable is followed by a busy-poll
    /// of that oscillator's ready flag, so the model records the enable and
    /// the settled flag together.
    #[verifier::rlimit(50)]
    fn enable_oscillators(&self, rcc: &mut RCC)
        ensures
            *final(rcc) == (RCC { cr: spec_cr_osc_enabled(*self, old(rcc).cr), ..*old(rcc) }),
    {
        let cr = rcc.cr;
        rcc.cr = match self.input_src {
            InputSrc::Msi(range) => RccCr {
                msion: true,
                msirdy: true,
                msirgsel: true,
                msirange: range.bits(),
                ..cr
            },
            InputSrc::Hse(_) => RccCr { hseon: true, hserdy: true, ..cr },
            InputSrc::Hsi => RccCr { hsion: true, hsirdy: true, ..cr },
            InputSrc::Pll(pll_src) => match pll_src {
                PllSrc::Msi(range) => RccCr {
                    msion: true,
                    msirdy: true,
                    msirgsel: true,
                    msirange: range.bits(),
                    ..cr
                },
                PllSrc::Hse(_) => RccCr { hseon: true, hserdy: true, ..cr },
                PllSrc::Hsi => RccCr { hsion: true, hsirdy: true, ..cr },
                PllSrc::Disabled => cr,
            },
        };
    }

    /// PLL-reconfigure phase: disable the PLL, program its fields while it is
    /// confirmed not ready, re-enable it and the enabled auxiliaries, and
    /// open the output taps only once locked — enabling a tap before the
    /// lock is a hardware ordering violation.
    fn reconfigure_pll(&self, pll_src: PllSrc, rcc: &mut RCC)
        ensures
            *final(rcc) == (RCC {
                cr: RccCr {
                    pllon: true,
                    pllrdy: true,
                    pllsai1on: if self.sai1_enabled { true } else { old(rcc).cr.pllsai1on },
                    pllsai1rdy: if self.sai1_enabled { true } else { old(rcc).cr.pllsai1rdy },
                    pllsai2on: if self.sai2_enabled { true } else { old(rcc).cr.pllsai2on },
                    pllsai2rdy: if self.sai2_enabled { true } else { old(rcc).cr.pllsai2rdy },
                    ..old(rcc).cr
                },
                pllcfgr: RccPllCfgr {
                    pllsrc: pll_src.spec_bits(),
                    pllm: self.pllm.spec_bits(),
                    plln: self.pll_vco_mul,
                    pllr: self.pllr.spec_bits(),
                    pllpen: true,
                    pllqen: true,
                    pllren: true,
                },
                pllsai1cfgr: if self.sai1_enabled {
                    RccPllSai1Cfgr {
                        pllsai1n: self.pll_sai1_mul,
                        pllsai1pen: true,
                        pllsai1qen: true,
                        pllsai1ren: true,
                    }
                } else {
                    old(rcc).pllsai1cfgr
                },
                pllsai2cfgr: if self.sai2_enabled {
                    RccPllSai2Cfgr {
                        pllsai2n: self.pll_sai2_mul,
                        pllsai2pen: true,
                        pllsai2ren: true,
                    }
                } else {
                    old(rcc).pllsai2cfgr
                },
                ..*old(rcc)
            }),
    {
        // The PLL's configuration may only be written while the PLL is
        // disabled and no longer reports ready: turn it off first.
        let mut cr = rcc.cr;
        cr.pllon = false;
        cr.pllrdy = false;

        let mut pllcfgr = rcc.pllcfgr;
        pllcfgr.pllsrc = pll_src.bits();
        pllcfgr.plln = self.pll_vco_mul;
        pllcfgr.pllm = self.pllm.bits();
        pllcfgr.pllr = self.pllr.bits();

        let mut pllsai1cfgr = rcc.pllsai1cfgr;
        if self.sai1_enabled {
            pllsai1cfgr.pllsai1n = self.pll_sai1_mul;
        }
        let mut pllsai2cfgr = rcc.pllsai2cfgr;
        if self.sai2_enabled {
            pllsai2cfgr.pllsai2n = self.pll_sai2_mul;
        }

        // Now turn the PLL back on, and wait for it and the enabled
        // auxiliaries to lock.
        cr.pllon = true;
        if self.sai1_enabled {
            cr.pllsai1on = true;
            cr.pllsai1rdy = true;
        }
        if self.sai2_enabled {
            cr.pllsai2on = true;
            cr.pllsai2rdy = true;
        }
        cr.pllrdy = true;

        // Enable the P, Q and R output taps now that the PLL reports locked.
        pllcfgr.pllpen = true;
        pllcfgr.pllqen = true;
        pllcfgr.pllren = true;
        if self.sai1_enabled {
            pllsai1cfgr.pllsai1pen = true;
            pllsai1cfgr.pllsai1qen = true;
            pllsai1cfgr.pllsai1ren = true;
        }
        if self.sai2_enabled {
            pllsai2cfgr.pllsai2pen = true;
            pllsai2cfgr.pllsai2ren = true;
        }

        rcc.cr = cr;
        rcc.pllcfgr = pllcfgr;
        rcc.pllsai1cfgr = pllsai1cfgr;
        rcc.pllsai2cfgr = pllsai2cfgr;
    }

    /// Switchover-commit phase: program the prescalers and the system clock
    /// switch in one register, the clock security system, and the 48 MHz
    /// clock selection, enabling the HSI48 where it is the chosen source.
    fn commit_switchover(&self, rcc: &mut RCC)
        ensures
            *final(rcc) == (RCC {
                cfgr: RccCfgr {
                    sw: self.input_src.spec_bits(),
                    hpre: self.hclk_prescaler.spec_bits(),
                    ppre1: self.apb1_prescaler.spec_bits(),
                    ppre2: self.apb2_prescaler.spec_bits(),
                },
                cr: RccCr { csson: self.security_system, ..old(rcc).cr },
                ccipr: RccCcipr { clk48sel: self.clk48_src.spec_bits() },
                crrcr: if self.clk48_src is Hsi48 {
                    RccCrrcr { hsi48on: true, hsi48rdy: true }
                } else {
                    old(rcc).crrcr
                },
                ..*old(rcc)
            }),
    {
        // Program the prescalers and the system clock switch together.
        let mut cfgr = rcc.cfgr;
        cfgr.sw = self.input_src.bits();
        cfgr.hpre = self.hclk_prescaler.bits();
        cfgr.ppre2 = self.apb2_prescaler.bits();
        cfgr.ppre1 = self.apb1_prescaler.bits();
        rcc.cfgr = cfgr;

        let mut cr = rcc.cr;
        cr.csson = self.security_system;
        rcc.cr = cr;

        rcc.ccipr = RccCcipr { clk48sel: self.clk48_src.bits() };

        // Enable the HSI48 as required, which is used for USB, RNG, etc.
        // Only valid for the larger family members.
        if let Clk48Src::Hsi48 = self.clk48_src {
            rcc.crrcr = RccCrrcr { hsi48on: true, hsi48rdy: true };
        }
    }

    /// Setup clocks, and return `Ok` exactly when the configuration is valid.
    /// An invalid configuration is rejected before any register is written:
    /// the whole operation either completes or touches nothing.
    ///
    /// On hardware every oscillator and PLL enable below is followed by an
    /// unbounded busy-poll of the matching ready flag; a flag that never sets
    /// (bad oscillator wiring) hangs the caller permanently. The register
    /// model holds the settled state those polls wait for.
    #[verifier::rlimit(100)]
    pub fn setup(&self, rcc: &mut RCC, flash: &mut FLASH) -> (r: Result<(), SpeedError>)
        ensures
            !self.spec_valid() ==> {
                &&& r is Err
                &&& *final(rcc) == *old(rcc)
                &&& *final(flash) == *old(flash)
            },
            self.spec_valid() ==> {
                &&& r is Ok
                &&& *final(rcc) == spec_rcc_after_setup(*self, *old(rcc))
                &&& *final(flash) == (FLASH {
                    acr: FlashAcr { latency: spec_flash_latency(self.spec_hclk_hz()) },
                })
            },
    {
        if let Validation::NotValid = self.validate() {
            return Err(SpeedError {});
        }

        // Adjust flash wait states according to the HCLK frequency.
        // We need to do this before enabling PLL, or it won't enable.
        let (_input_freq, sysclk) =
            calc_sysclock(self.input_src, self.pllm, self.pll_vco_mul, self.pllr);
        let hclk = sysclk / self.hclk_prescaler.value() as u64;
        Self::set_flash_latency(flash, hclk);

        self.enable_oscillators(rcc);

        // Enable bypass mode on HSE, since we're using a ceramic oscillator.
        let mut cr = rcc.cr;
        cr.hsebyp = self.hse_bypass;
        rcc.cr = cr;

        if let InputSrc::Pll(pll_src) = self.input_src {
            self.reconfigure_pll(pll_src, rcc);
        }

        self.commit_switchover(rcc);

        Ok(())
    }

    /// Calculate clock speeds from a given config. Everything is in hertz.
    pub fn calc_speeds(&self) -> (r: Speeds)
        ensures
            r == self.spec_speeds(),
    {
        let (input_freq, sysclk) =
            calc_sysclock(self.input_src, self.pllm, self.pll_vco_mul, self.pllr);

        let m = self.pllm.value() as u64;
        let usb_divided = input_freq / m;
        proof {
            lemma_div_nonincreasing(input_freq as int, m as int);
            lemma_mul_upper_bound(usb_divided as int, 255_000_000, self.pll_sai1_mul as int, 255);
        }
        let usb = usb_divided * self.pll_sai1_mul as u64 / 2;

        let hclk = sysclk / self.hclk_prescaler.value() as u64;
        proof {
            lemma_div_nonincreasing(sysclk as int, self.hclk_prescaler.spec_value() as int);
        }
        // The required system-timer divider is not yet implemented; it is
        // fixed at one here, though the hardware also offers divide-by-eight.
        let systick = hclk;
        let fclk = hclk;
        let pclk1 = hclk / self.apb1_prescaler.value() as u64;
        proof {
            lemma_div_nonincreasing(hclk as int, self.apb1_prescaler.spec_value() as int);
        }
        let timer1 = if let ApbPrescaler::Div1 = self.apb1_prescaler {
            pclk1
        } else {
            pclk1 * 2
        };
        let pclk2 = hclk / self.apb2_prescaler.value() as u64;
        proof {
            lemma_div_nonincreasing(hclk as int, self.apb2_prescaler.spec_value() as int);
        }
        let timer2 = if let ApbPrescaler::Div1 = self.apb2_prescaler {
            pclk2
        } else {
            pclk2 * 2
        };

        Speeds { sysclk, usb, hclk, systick, fclk, pclk1, timer1, pclk2, timer2 }
    }

    /// Check if valid: the main verdict of [`validate`], with the multiplier
    /// range check in front.
    pub fn validate(&self) -> (r: Validation)
        ensures
            (r is Valid) <==> self.spec_valid(),
    {
        if self.pll_vco_mul < 7
            || self.pll_vco_mul > 86
            || self.pll_sai1_mul < 7
            || self.pll_sai1_mul > 86
            || self.pll_sai2_mul < 7
            || self.pll_sai2_mul > 86
        {
            return Validation::NotValid;
        }

        validate(self.calc_speeds()).0
    }

    /// The USB verdict of [`validate`], independent of the main one.
    pub fn validate_usb(&self) -> (r: Validation)
        ensures
            (r is Valid) <==> usb_speed_ok(self.spec_speeds()),
    {
        validate(self.calc_speeds()).1
    }

    /// The clock summary [`Clocks::make_rcc_clocks`] builds: each bus speed
    /// truncated to whole megahertz, and the oscillator selections this
    /// configuration implies.
    pub open spec fn spec_rcc_clocks(self) -> rcc::Clocks {
        let speeds = self.spec_speeds();
        rcc::Clocks {
            hclk: Hertz((speeds.hclk / 1_000_000 * 1_000_000) as u32),
            hsi48: self.input_src is Hsi,
            msi: match self.input_src {
                InputSrc::Msi(range) => Some(range.spec_to_rcc_msi()),
                InputSrc::Pll(pll_src) => match pll_src {
                    PllSrc::Msi(range) => Some(range.spec_to_rcc_msi()),
                    _ => None::<rcc::MsiFreq>,
                },
                _ => None::<rcc::MsiFreq>,
            },
            lsi: false,
            lse: false,
            pclk1: Hertz((speeds.pclk1 / 1_000_000 * 1_000_000) as u32),
            pclk2: Hertz((speeds.pclk2 / 1_000_000 * 1_000_000) as u32),
            ppre1: self.apb1_prescaler.spec_value(),
            ppre2: self.apb2_prescaler.spec_value(),
            sysclk: Hertz((speeds.sysclk / 1_000_000 * 1_000_000) as u32),
            pll_source: match self.input_src {
                InputSrc::Pll(pll_src) => match pll_src {
                    PllSrc::Msi(_) => Some(rcc::PllSource::MSI),
                    PllSrc::Hsi => Some(rcc::PllSource::HSI16),
                    PllSrc::Hse(_) => Some(rcc::PllSource::HSE),
                    PllSrc::Disabled => None::<rcc::PllSource>,
                },
                _ => None::<rcc::PllSource>,
            },
        }
    }

    /// Make a clocks struct in the shape the peripheral drivers (`i2c`,
    /// `serial`, `timer` and the like) read. Bus speeds are truncated to
    /// whole megahertz, as those drivers expect.
    ///
    /// The system clock must fit the summary's 32-bit hertz fields; every
    /// validated configuration does.
    pub fn make_rcc_clocks(&self) -> (r: rcc::Clocks)
        requires
            self.spec_sysclk_hz() <= u32::MAX,
        ensures
            r == self.spec_rcc_clocks(),
    {
        let speeds = self.calc_speeds();
        proof {
            lemma_sysclk_bounds(*self);
            lemma_div_pos_is_pos(self.spec_sysclk_hz(), self.hclk_prescaler.spec_value() as int);
            lemma_div_nonincreasing(self.spec_sysclk_hz(), self.hclk_prescaler.spec_value() as int);
            lemma_div_pos_is_pos(self.spec_hclk_hz(), self.apb1_prescaler.spec_value() as int);
            lemma_div_nonincreasing(self.spec_hclk_hz(), self.apb1_prescaler.spec_value() as int);
            lemma_div_pos_is_pos(self.spec_hclk_hz(), self.apb2_prescaler.spec_value() as int);
            lemma_div_nonincreasing(self.spec_hclk_hz(), self.apb2_prescaler.spec_value() as int);
            lemma_whole_mhz_le(speeds.sysclk as int);
            lemma_whole_mhz_le(speeds.hclk as int);
            lemma_whole_mhz_le(speeds.pclk1 as int);
            lemma_whole_mhz_le(speeds.pclk2 as int);
        }

        let mut msi: Option<rcc::MsiFreq> = None;
        match self.input_src {
            InputSrc::Msi(range) => {
                msi = Some(range.to_rcc_msi());
            }
            InputSrc::Pll(pll_src) => {
                if let PllSrc::Msi(range) = pll_src {
                    msi = Some(range.to_rcc_msi());
                }
            }
            _ => (),
        }

        let pll_source = match self.input_src {
            InputSrc::Pll(pll_src) => match pll_src {
                PllSrc::Msi(_) => Some(rcc::PllSource::MSI),
                PllSrc::Hsi => Some(rcc::PllSource::HSI16),
                PllSrc::Hse(_) => Some(rcc::PllSource::HSE),
                PllSrc::Disabled => None,
            },
            _ => None,
        };

        rcc::Clocks {
            hclk: Hertz((speeds.hclk / 1_000_000 * 1_000_000) as u32),
            hsi48: matches!(self.input_src, InputSrc::Hsi),
            msi,
            lsi: false,
            lse: false,
            pclk1: Hertz((speeds.pclk1 / 1_000_000 * 1_000_000) as u32),
            pclk2: Hertz((speeds.pclk2 / 1_000_000 * 1_000_000) as u32),
            ppre1: self.apb1_prescaler.value(),
            ppre2: self.apb2_prescaler.value(),
            sysclk: Hertz((speeds.sysclk / 1_000_000 * 1_000_000) as u32),
            pll_source,
        }
    }

    /// This preset configures clocks with the HSI, and an 80 MHz sysclck. All
    /// peripheral clocks are at 80 MHz.
    /// HSE output is not bypassed.
    pub fn hsi_preset() -> (r: Self)
        ensures
            r == (Clocks {
                input_src: InputSrc::Pll(PllSrc::Hsi),
                pllm: Pllm::Div2,
                pll_vco_mul: 20,
                pll_sai1_mul: 8,
                pll_sai2_mul: 8,
                pllr: Pllr::Div2,
                hclk_prescaler: HclkPrescaler::Div1,
                apb1_prescaler: ApbPrescaler::Div1,
                apb2_prescaler: ApbPrescaler::Div1,
                clk48_src: Clk48Src::PllSai1,
                sai1_enabled: false,
                sai2_enabled: false,
                hse_bypass: false,
                security_system: false,
            }),
    {
        Self {
            input_src: InputSrc::Pll(PllSrc::Hsi),
            pllm: Pllm::Div2,
            pll_vco_mul: 20,
            pll_sai1_mul: 8,
            pll_sai2_mul: 8,
            pllr: Pllr::Div2,
            hclk_prescaler: HclkPrescaler::Div1,
            apb1_prescaler: ApbPrescaler::Div1,
            apb2_prescaler: ApbPrescaler::Div1,
            clk48_src: Clk48Src::PllSai1,
            sai1_enabled: false,
            sai2_enabled: false,
            hse_bypass: false,
            security_system: false,
        }
    }
}

impl Default for Clocks {
    /// This default configures clocks with the HSE, and a 32 MHz sysclck. All
    /// peripheral clocks are at 32 MHz.
    /// HSE output is not bypassed.
    fn default() -> (r: Self)
        ensures
            r == (Clocks {
                input_src: InputSrc::Pll(PllSrc::Hse(8)),
                pllm: Pllm::Div1,
                pll_vco_mul: 20,
                pll_sai1_mul: 8,
                pll_sai2_mul: 8,
                pllr: Pllr::Div2,
                hclk_prescaler: HclkPrescaler::Div1,
                apb1_prescaler: ApbPrescaler::Div1,
                apb2_prescaler: ApbPrescaler::Div1,
                clk48_src: Clk48Src::PllSai1,
                sai1_enabled: false,
                sai2_enabled: false,
                hse_bypass: false,
                security_system: false,
            }),
    {
        Self {
            input_src: InputSrc::Pll(PllSrc::Hse(8)),
            pllm: Pllm::Div1,
            pll_vco_mul: 20,
            pll_sai1_mul: 8,
            pll_sai2_mul: 8,
            pllr: Pllr::Div2,
            hclk_prescaler: HclkPrescaler::Div1,
            apb1_prescaler: ApbPrescaler::Div1,
            apb2_prescaler: ApbPrescaler::Div1,
            clk48_src: Clk48Src::PllSai1,
            sai1_enabled: false,
            sai2_enabled: false,
            hse_bypass: false,
            security_system: false,
        }
    }
}

/// Validate resulting speeds from a given clock config.
/// Main validation, USB validation.
pub fn validate(speeds: Speeds) -> (r: (Validation, Validation))
    ensures
        (r.0 is Valid) <==> speeds_within_limits(speeds),
        (r.1 is Valid) <==> usb_speed_ok(speeds),
{
    let mut main = Validation::Valid;
    let mut usb = Validation::Valid;

    if speeds.sysclk > 80_000_000 || speeds.sysclk == 0 {
        main = Validation::NotValid;
    }

    if speeds.hclk > 80_000_000 || speeds.hclk == 0 {
        main = Validation::NotValid;
    }

    if speeds.pclk1 > 80_000_000 || speeds.pclk1 == 0 {
        main = Validation::NotValid;
    }

    if speeds.pclk2 > 80_000_000 || speeds.pclk2 == 0 {
        main = Validation::NotValid;
    }

    if speeds.usb / 1_000_000 != 48 {
        usb = Validation::NotValid;
    }

    (main, usb)
}

/// Truncating a nonnegative frequency to whole megahertz never grows it.
proof fn lemma_whole_mhz_le(x: int)
    requires
        0 <= x,
    ensures
        0 <= x / 1_000_000 * 1_000_000 <= x,
{
    lemma_div_pos_is_pos(x, 1_000_000);
    lemma_fundamental_div_mod(x, 1_000_000);
}

/// No oscillator selection supplies more than 255 MHz, the largest
/// caller-suppliable HSE value.
pub proof fn lemma_input_freq_bounds(src: InputSrc)
    ensures
        0 <= input_freq_hz(src) <= 255_000_000,
{
}

/// The system clock any configuration derives lies between zero and the
/// largest value the PLL chain can produce (255 MHz times the widest
/// multiplier).
pub proof fn lemma_sysclk_bounds(c: Clocks)
    ensures
        0 <= c.spec_sysclk_hz() <= 65_025_000_000,
{
    lemma_input_freq_bounds(c.input_src);
    match c.input_src {
        InputSrc::Pll(pll_src) => {
            let f = pll_src_freq_hz(pll_src);
            assert(0 <= f <= 255_000_000);
            let m = c.pllm.spec_value() as int;
            lemma_div_pos_is_pos(f, m);
            lemma_div_nonincreasing(f, m);
            let q = f / m;
            lemma_mul_nonnegative(q, c.pll_vco_mul as int);
            lemma_mul_upper_bound(q, 255_000_000, c.pll_vco_mul as int, 255);
            let product = q * c.pll_vco_mul as int;
            let r = c.pllr.spec_value() as int;
            lemma_div_pos_is_pos(product, r);
            lemma_div_nonincreasing(product, r);
        }
        _ => {}
    }
}

/// For every configuration whose PLL multipliers are in range and whose
/// selected oscillator supplies a positive frequency, the derived system
/// clock is positive.
pub proof fn lemma_sysclk_positive(c: Clocks)
    requires
        c.spec_mults_ok(),
        input_freq_hz(c.input_src) > 0,
    ensures
        c.spec_sysclk_hz() > 0,
        c.spec_speeds().sysclk > 0,
{
    lemma_sysclk_bounds(c);
    match c.input_src {
        InputSrc::Pll(pll_src) => {
            let f = pll_src_freq_hz(pll_src);
            // Every oscillator that supplies anything supplies at least the
            // lowest MSI range's 100 kHz.
            assert(f >= 100_000);
            let m = c.pllm.spec_value() as int;
            assert(1 <= m <= 8);
            let q = f / m;
            lemma_div_is_ordered(100_000, f, m);
            lemma_div_is_ordered_by_denominator(100_000, m, 8);
            assert(q >= 12_500);
            let product = q * c.pll_vco_mul as int;
            assert(product >= 87_500) by (nonlinear_arith)
                requires
                    q >= 12_500,
                    c.pll_vco_mul >= 7,
                    product == q * c.pll_vco_mul as int,
            ;
            let r = c.pllr.spec_value() as int;
            assert(2 <= r <= 8);
            lemma_div_non_zero(product, r);
        }
        _ => {}
    }
}

/// Deriving speeds is deterministic: the result is a function of the
/// configuration alone, so two derivations from the same configuration are
/// bit-identical.
pub proof fn lemma_calc_speeds_deterministic(c: Clocks, first: Speeds, second: Speeds)
    requires
        first == c.spec_speeds(),
        second == c.spec_speeds(),
    ensures
        first == second,
{
}

/// A PLL multiplier of 6 or 87 — either boundary value just outside the
/// accepted range — makes the whole configuration invalid, whatever the rest
/// of it holds.
pub proof fn lemma_boundary_mults_rejected(c: Clocks)
    requires
        c.pll_vco_mul == 6 || c.pll_vco_mul == 87 || c.pll_sai1_mul == 6 || c.pll_sai1_mul == 87
            || c.pll_sai2_mul == 6 || c.pll_sai2_mul == 87,
    ensures
        !c.spec_valid(),
{
}

/// Multipliers of 7 and 86 — the boundary values inside the accepted range —
/// pass the multiplier check: the verdict then rests on the derived
/// frequencies alone.
pub proof fn lemma_boundary_mults_accepted(c: Clocks)
    requires
        7 <= c.pll_vco_mul <= 86,
        7 <= c.pll_sai1_mul <= 86,
        7 <= c.pll_sai2_mul <= 86,
    ensures
        c.spec_valid() == speeds_within_limits(c.spec_speeds()),
{
}

} // verus!
