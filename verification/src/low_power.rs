//! Placing the system in its low power modes, and restoring the clock input
//! source after the deep modes reset the clock tree.
//!
//! Each entry into a sleep state ends at the wait-for-interrupt instruction;
//! the register models hold the state programmed up to that point. On wake
//! from the Stop, Standby and Shutdown modes the system runs from its default
//! oscillator, so the chosen input source is re-selected.

use vstd::prelude::*;
use crate::pac::{PWR, PwrCr1, RCC, RccCfgr, RccCr, SCB};

verus! {

/// The oscillator feeding the main PLL.
#[derive(Clone, Copy)]
pub enum PllSrc {
    Msi,
    Hsi16,
    Hse,
}

/// The input source to re-select after a wake from deep sleep.
#[derive(Clone, Copy)]
pub enum InputSrc {
    Msi,
    Hsi16,
    Hse,
    Pll(PllSrc),
}

impl InputSrc {
    /// The `SW` system-clock-switch register field value for this selection.
    pub open spec fn spec_bits(self) -> u8 {
        match self {
            InputSrc::Msi => 0b00,
            InputSrc::Hsi16 => 0b00,
            InputSrc::Hse => 0b01,
            InputSrc::Pll(_) => 0b10,
        }
    }

    /// The `SW` system-clock-switch register field value for this selection.
    pub fn bits(&self) -> (r: u8)
        ensures
            r == self.spec_bits(),
    {
        match self {
            InputSrc::Msi => 0b00,
            InputSrc::Hsi16 => 0b00,
            InputSrc::Hse => 0b01,
            InputSrc::Pll(_) => 0b10,
        }
    }
}

/// The three Stop modes, by depth.
#[derive(Clone, Copy)]
pub enum StopMode {
    Zero,
    One,
    Two,
}

impl StopMode {
    /// The `LPMS` low-power-mode-selection field value for this mode.
    pub open spec fn spec_bits(self) -> u8 {
        match self {
            StopMode::Zero => 0b000,
            StopMode::One => 0b001,
            StopMode::Two => 0b010,
        }
    }

    /// The `LPMS` low-power-mode-selection field value for this mode.
    pub fn bits(&self) -> (r: u8)
        ensures
            r == self.spec_bits(),
    {
        match self {
            StopMode::Zero => 0b000,
            StopMode::One => 0b001,
            StopMode::Two => 0b010,
        }
    }
}

/// The `CR` register after [`re_select_input`]: the HSE re-enabled and
/// settled where it is the source (directly or behind the PLL), and the PLL
/// restarted where it is; nothing for the oscillators the hardware itself
/// restores.
pub open spec fn spec_cr_after_re_select(input_src: InputSrc, before: RccCr) -> RccCr {
    match input_src {
        InputSrc::Hse => RccCr { hseon: true, hserdy: true, ..before },
        InputSrc::Pll(_) => RccCr { hseon: true, hserdy: true, pllon: true, pllrdy: true, ..before },
        _ => before,
    }
}

/// Re-select the input source; used on the Stop and Standby modes, where the
/// system reverts to its default oscillator on wake. For a PLL source the
/// PLL is stopped, the switch re-pointed, and the PLL restarted; each enable
/// is confirmed on hardware by an unbounded poll of the matching ready flag,
/// whose settled state the model records.
fn re_select_input(rcc: &mut RCC, input_src: InputSrc)
    ensures
        *final(rcc) == (RCC {
            cr: spec_cr_after_re_select(input_src, old(rcc).cr),
            cfgr: (match input_src {
                InputSrc::Hse => RccCfgr { sw: input_src.spec_bits(), ..old(rcc).cfgr },
                InputSrc::Pll(_) => RccCfgr { sw: input_src.spec_bits(), ..old(rcc).cfgr },
                _ => old(rcc).cfgr,
            }),
            ..*old(rcc)
        }),
{
    match input_src {
        InputSrc::Hse => {
            let cr = rcc.cr;
            rcc.cr = RccCr { hseon: true, hserdy: true, ..cr };

            let cfgr = rcc.cfgr;
            rcc.cfgr = RccCfgr { sw: input_src.bits(), ..cfgr };
        }
        InputSrc::Pll(_) => {
            let cr = rcc.cr;
            rcc.cr = RccCr { hseon: true, hserdy: true, ..cr };

            // The PLL must be stopped, and confirmed not ready, before the
            // switch is re-pointed at it.
            let cr = rcc.cr;
            rcc.cr = RccCr { pllon: false, pllrdy: false, ..cr };

            let cfgr = rcc.cfgr;
            rcc.cfgr = RccCfgr { sw: input_src.bits(), ..cfgr };

            let cr = rcc.cr;
            rcc.cr = RccCr { pllon: true, pllrdy: true, ..cr };
        }
        InputSrc::Hsi16 => (),  // the hardware itself wakes to this
        InputSrc::Msi => (),  // likewise when MSI is the wake-up default
    }
}

/// Enter low-power run mode. This assumes the system clock frequency has
/// already been reduced below the 2 MHz the regulator supports there.
pub fn low_power_run(pwr: &mut PWR)
    ensures
        *final(pwr) == (PWR { cr1: PwrCr1 { lpr: true, ..old(pwr).cr1 }, ..*old(pwr) }),
{
    let cr1 = pwr.cr1;
    pwr.cr1 = PwrCr1 { lpr: true, ..cr1 };
}

/// Return to normal run mode from low-power run, waiting for the main
/// regulator; increase the clock speed manually after running this. On
/// hardware the regulator flag is polled unbounded; the model records the
/// settled state.
pub fn return_from_low_power_run(pwr: &mut PWR)
    ensures
        final(pwr).cr1 == (PwrCr1 { lpr: false, ..old(pwr).cr1 }),
        !final(pwr).sr2.reglpf,
        final(pwr).scr == old(pwr).scr,
{
    let cr1 = pwr.cr1;
    pwr.cr1 = PwrCr1 { lpr: false, ..cr1 };

    // Wait until the regulator reports the main mode again.
    pwr.sr2.reglpf = false;
}

/// Place the system in sleep-now mode: ordinary sleep depth, then wait for
/// interrupt. To enter low-power sleep, enter low-power run first.
pub fn sleep_now(scb: &mut SCB)
    ensures
        !final(scb).sleepdeep,
{
    scb.clear_sleepdeep();

    // Wait for interrupt: execution halts here until one arrives.
}

/// Enter Stop 0, Stop 1, or Stop 2 mode, and on wake re-select the input
/// source, which the stop modes reset to the default oscillator.
pub fn stop(scb: &mut SCB, pwr: &mut PWR, rcc: &mut RCC, mode: StopMode, input_src: InputSrc)
    ensures
        final(scb).sleepdeep,
        *final(pwr) == (PWR {
            cr1: PwrCr1 { lpms: mode.spec_bits(), ..old(pwr).cr1 },
            ..*old(pwr)
        }),
        *final(rcc) == (RCC {
            cr: spec_cr_after_re_select(input_src, old(rcc).cr),
            cfgr: (match input_src {
                InputSrc::Hse => RccCfgr { sw: input_src.spec_bits(), ..old(rcc).cfgr },
                InputSrc::Pll(_) => RccCfgr { sw: input_src.spec_bits(), ..old(rcc).cfgr },
                _ => old(rcc).cfgr,
            }),
            ..*old(rcc)
        }),
{
    // Deep sleep, with the stop depth selected, then wait for interrupt.
    scb.set_sleepdeep();
    let cr1 = pwr.cr1;
    pwr.cr1 = PwrCr1 { lpms: mode.bits(), ..cr1 };

    // Wait for interrupt: execution halts here until a wake event.

    re_select_input(rcc, input_src);
}

/// Enter Standby mode, the deeper of the two retention-less states, and on
/// wake re-select the input source.
pub fn standby(scb: &mut SCB, pwr: &mut PWR, rcc: &mut RCC, input_src: InputSrc)
    ensures
        final(scb).sleepdeep,
        *final(pwr) == (PWR {
            cr1: PwrCr1 { lpms: 0b011, ..old(pwr).cr1 },
            scr: 0,
            ..*old(pwr)
        }),
        *final(rcc) == (RCC {
            cr: spec_cr_after_re_select(input_src, old(rcc).cr),
            cfgr: (match input_src {
                InputSrc::Hse => RccCfgr { sw: input_src.spec_bits(), ..old(rcc).cfgr },
                InputSrc::Pll(_) => RccCfgr { sw: input_src.spec_bits(), ..old(rcc).cfgr },
                _ => old(rcc).cfgr,
            }),
            ..*old(rcc)
        }),
{
    scb.set_sleepdeep();
    let cr1 = pwr.cr1;
    pwr.cr1 = PwrCr1 { lpms: 0b011, ..cr1 };
    // Clear the wakeup flags through the status clear register.
    pwr.scr = 0;

    // Wait for interrupt: execution halts here until a wake event.

    re_select_input(rcc, input_src);
}

/// Enter Shutdown mode, the lowest-power of the deep states, and on wake
/// re-select the input source.
pub fn shutdown(scb: &mut SCB, pwr: &mut PWR, rcc: &mut RCC, input_src: InputSrc)
    ensures
        final(scb).sleepdeep,
        *final(pwr) == (PWR {
            cr1: PwrCr1 { lpms: 0b100, ..old(pwr).cr1 },
            scr: 0,
            ..*old(pwr)
        }),
        *final(rcc) == (RCC {
            cr: spec_cr_after_re_select(input_src, old(rcc).cr),
            cfgr: (match input_src {
                InputSrc::Hse => RccCfgr { sw: input_src.spec_bits(), ..old(rcc).cfgr },
                InputSrc::Pll(_) => RccCfgr { sw: input_src.spec_bits(), ..old(rcc).cfgr },
                _ => old(rcc).cfgr,
            }),
            ..*old(rcc)
        }),
{
    scb.set_sleepdeep();
    let cr1 = pwr.cr1;
    pwr.cr1 = PwrCr1 { lpms: 0b100, ..cr1 };
    // Clear the wakeup flags through the status clear register.
    pwr.scr = 0;

    // Wait for interrupt: execution halts here until a wake event.

    re_select_input(rcc, input_src);
}

} // verus!
