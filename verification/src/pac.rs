//! Plain-value models of the peripheral register blocks that this crate
//! programs.
//!
//! Each struct mirrors one memory-mapped register block, one field per
//! register bit-field. A value of such a struct is an owned handle: whoever
//! holds `&mut RCC` owns the clock-control registers, and every function's
//! contract states exactly which fields it changes.
//!
//! The models hold the *settled* state of ideal hardware. On the real device
//! an oscillator's ready flag follows its enable bit after an unbounded
//! busy-poll (a flag that never sets hangs the caller; that documented
//! hardware hazard is not represented here). In the model the two fields are
//! updated together at the point where the poll of the driver completes, so a
//! ready flag is true exactly when the settled hardware would report it.

use vstd::prelude::*;

verus! {

/// RCC clock control register (`CR`).
#[derive(Clone, Copy, PartialEq, Eq, Structural, Debug)]
pub struct RccCr {
    pub msion: bool,
    pub msirdy: bool,
    pub msirgsel: bool,
    pub msirange: u8,
    pub hsion: bool,
    pub hsirdy: bool,
    pub hseon: bool,
    pub hserdy: bool,
    pub hsebyp: bool,
    pub pllon: bool,
    pub pllrdy: bool,
    pub pllsai1on: bool,
    pub pllsai1rdy: bool,
    pub pllsai2on: bool,
    pub pllsai2rdy: bool,
    pub csson: bool,
}

/// RCC clock configuration register (`CFGR`).
#[derive(Clone, Copy, PartialEq, Eq, Structural, Debug)]
pub struct RccCfgr {
    /// System clock switch.
    pub sw: u8,
    /// AHB prescaler field.
    pub hpre: u8,
    /// APB1 prescaler field.
    pub ppre1: u8,
    /// APB2 prescaler field.
    pub ppre2: u8,
}

/// Main PLL configuration register (`PLLCFGR`).
#[derive(Clone, Copy, PartialEq, Eq, Structural, Debug)]
pub struct RccPllCfgr {
    pub pllsrc: u8,
    pub pllm: u8,
    pub plln: u8,
    pub pllr: u8,
    pub pllpen: bool,
    pub pllqen: bool,
    pub pllren: bool,
}

/// First auxiliary PLL configuration register (`PLLSAI1CFGR`).
#[derive(Clone, Copy, PartialEq, Eq, Structural, Debug)]
pub struct RccPllSai1Cfgr {
    pub pllsai1n: u8,
    pub pllsai1pen: bool,
    pub pllsai1qen: bool,
    pub pllsai1ren: bool,
}

/// Second auxiliary PLL configuration register (`PLLSAI2CFGR`).
#[derive(Clone, Copy, PartialEq, Eq, Structural, Debug)]
pub struct RccPllSai2Cfgr {
    pub pllsai2n: u8,
    pub pllsai2pen: bool,
    pub pllsai2ren: bool,
}

/// Peripherals-independent clock configuration register (`CCIPR`).
#[derive(Clone, Copy, PartialEq, Eq, Structural, Debug)]
pub struct RccCcipr {
    /// 48 MHz clock source selector.
    pub clk48sel: u8,
}

/// Clock recovery RC register (`CRRCR`).
#[derive(Clone, Copy, PartialEq, Eq, Structural, Debug)]
pub struct RccCrrcr {
    pub hsi48on: bool,
    pub hsi48rdy: bool,
}

/// Control/status register (`CSR`), holding the LSI enable.
#[derive(Clone, Copy, PartialEq, Eq, Structural, Debug)]
pub struct RccCsr {
    pub lsion: bool,
}

/// The reset and clock control peripheral.
#[derive(Clone, Copy, PartialEq, Eq, Structural, Debug)]
pub struct RCC {
    pub cr: RccCr,
    pub cfgr: RccCfgr,
    pub pllcfgr: RccPllCfgr,
    pub pllsai1cfgr: RccPllSai1Cfgr,
    pub pllsai2cfgr: RccPllSai2Cfgr,
    pub ccipr: RccCcipr,
    pub crrcr: RccCrrcr,
    pub csr: RccCsr,
}

impl RCC {
    /// The register block as it stands after a system reset.
    pub open spec fn spec_reset() -> RCC {
        RCC {
            cr: RccCr {
                msion: true,
                msirdy: true,
                msirgsel: false,
                msirange: 6,
                hsion: false,
                hsirdy: false,
                hseon: false,
                hserdy: false,
                hsebyp: false,
                pllon: false,
                pllrdy: false,
                pllsai1on: false,
                pllsai1rdy: false,
                pllsai2on: false,
                pllsai2rdy: false,
                csson: false,
            },
            cfgr: RccCfgr { sw: 0, hpre: 0, ppre1: 0, ppre2: 0 },
            pllcfgr: RccPllCfgr {
                pllsrc: 0,
                pllm: 0,
                plln: 16,
                pllr: 0,
                pllpen: false,
                pllqen: false,
                pllren: false,
            },
            pllsai1cfgr: RccPllSai1Cfgr {
                pllsai1n: 16,
                pllsai1pen: false,
                pllsai1qen: false,
                pllsai1ren: false,
            },
            pllsai2cfgr: RccPllSai2Cfgr {
                pllsai2n: 16,
                pllsai2pen: false,
                pllsai2ren: false,
            },
            ccipr: RccCcipr { clk48sel: 0 },
            crrcr: RccCrrcr { hsi48on: false, hsi48rdy: false },
            csr: RccCsr { lsion: false },
        }
    }

    /// Build the register block in its reset state.
    pub fn reset() -> (r: RCC)
        ensures
            r == RCC::spec_reset(),
    {
        RCC {
            cr: RccCr {
                msion: true,
                msirdy: true,
                msirgsel: false,
                msirange: 6,
                hsion: false,
                hsirdy: false,
                hseon: false,
                hserdy: false,
                hsebyp: false,
                pllon: false,
                pllrdy: false,
                pllsai1on: false,
                pllsai1rdy: false,
                pllsai2on: false,
                pllsai2rdy: false,
                csson: false,
            },
            cfgr: RccCfgr { sw: 0, hpre: 0, ppre1: 0, ppre2: 0 },
            pllcfgr: RccPllCfgr {
                pllsrc: 0,
                pllm: 0,
                plln: 16,
                pllr: 0,
                pllpen: false,
                pllqen: false,
                pllren: false,
            },
            pllsai1cfgr: RccPllSai1Cfgr {
                pllsai1n: 16,
                pllsai1pen: false,
                pllsai1qen: false,
                pllsai1ren: false,
            },
            pllsai2cfgr: RccPllSai2Cfgr {
                pllsai2n: 16,
                pllsai2pen: false,
                pllsai2ren: false,
            },
            ccipr: RccCcipr { clk48sel: 0 },
            crrcr: RccCrrcr { hsi48on: false, hsi48rdy: false },
            csr: RccCsr { lsion: false },
        }
    }
}

/// Flash access control register (`ACR`).
#[derive(Clone, Copy, PartialEq, Eq, Structural, Debug)]
pub struct FlashAcr {
    /// Wait-state count for flash reads at the current AHB frequency.
    pub latency: u8,
}

/// The flash controller.
#[derive(Clone, Copy, PartialEq, Eq, Structural, Debug)]
pub struct FLASH {
    pub acr: FlashAcr,
}

impl FLASH {
    /// Build the register block in its reset state.
    pub fn reset() -> (r: FLASH)
        ensures
            r == (FLASH { acr: FlashAcr { latency: 0 } }),
    {
        FLASH { acr: FlashAcr { latency: 0 } }
    }
}

/// Power control register 1 (`CR1`).
#[derive(Clone, Copy, PartialEq, Eq, Structural, Debug)]
pub struct PwrCr1 {
    /// Low-power run mode request.
    pub lpr: bool,
    /// Low-power mode selection written before a deep-sleep entry.
    pub lpms: u8,
    /// Backup-domain write access enable.
    pub dbp: bool,
}

/// Power status register 2 (`SR2`).
#[derive(Clone, Copy, PartialEq, Eq, Structural, Debug)]
pub struct PwrSr2 {
    /// Regulator-in-low-power flag, clear once the main regulator is back.
    pub reglpf: bool,
}

/// The power control peripheral.
#[derive(Clone, Copy, PartialEq, Eq, Structural, Debug)]
pub struct PWR {
    pub cr1: PwrCr1,
    pub sr2: PwrSr2,
    /// Status clear register; holds the last word written to it.
    pub scr: u32,
}

impl PWR {
    /// Build the register block in its reset state.
    pub fn reset() -> (r: PWR)
        ensures
            r == (PWR {
                cr1: PwrCr1 { lpr: false, lpms: 0, dbp: false },
                sr2: PwrSr2 { reglpf: false },
                scr: 0,
            }),
    {
        PWR {
            cr1: PwrCr1 { lpr: false, lpms: 0, dbp: false },
            sr2: PwrSr2 { reglpf: false },
            scr: 0,
        }
    }
}

/// RTC control register (`CR`).
#[derive(Clone, Copy, PartialEq, Eq, Structural, Debug)]
pub struct RtcCr {
    /// Hour format: false for 24-hour, true for AM/PM.
    pub fmt: bool,
    /// Output selection.
    pub osel: u8,
    /// Output polarity.
    pub pol: bool,
    /// Wakeup timer enable.
    pub wute: bool,
    /// Wakeup timer interrupt enable.
    pub wutie: bool,
    /// Wakeup clock selection.
    pub wcksel: u8,
    /// Daylight-saving backup bit.
    pub bkp: bool,
    /// Alarm A enable.
    pub alrae: bool,
    /// Alarm B enable.
    pub alrbe: bool,
    /// Alarm A interrupt enable.
    pub alraie: bool,
    /// Alarm B interrupt enable.
    pub alrbie: bool,
    /// Timestamp interrupt enable.
    pub tsie: bool,
}

/// RTC initialization and status register (`ISR`).
#[derive(Clone, Copy, PartialEq, Eq, Structural, Debug)]
pub struct RtcIsr {
    /// Initialization mode request.
    pub init: bool,
    /// Initialization mode flag: the calendar is stopped and writable.
    pub initf: bool,
    /// Wakeup timer write flag: the wakeup registers are writable. The
    /// hardware raises it once the wakeup timer is disabled, and lowers it
    /// while the timer runs; the model keeps it coupled to `cr.wute` the same
    /// way.
    pub wutwf: bool,
    /// Wakeup timer fired.
    pub wutf: bool,
    /// Alarm A write flag.
    pub alrawf: bool,
    /// Alarm B write flag.
    pub alrbwf: bool,
    /// Alarm A fired.
    pub alraf: bool,
    /// Alarm B fired.
    pub alrbf: bool,
    /// Timestamp event flag.
    pub tsf: bool,
}

/// RTC prescaler register (`PRER`).
#[derive(Clone, Copy, PartialEq, Eq, Structural, Debug)]
pub struct RtcPrer {
    pub prediv_a: u8,
    pub prediv_s: u16,
}

/// RTC wakeup timer register (`WUTR`).
#[derive(Clone, Copy, PartialEq, Eq, Structural, Debug)]
pub struct RtcWutr {
    pub wut: u16,
}

/// RTC time register (`TR`), holding the calendar time in binary-coded
/// decimal: one field per decimal digit.
#[derive(Clone, Copy, PartialEq, Eq, Structural, Debug)]
pub struct RtcTr {
    pub pm: bool,
    /// Hour tens.
    pub ht: u8,
    /// Hour units.
    pub hu: u8,
    /// Minute tens.
    pub mnt: u8,
    /// Minute units.
    pub mnu: u8,
    /// Second tens.
    pub st: u8,
    /// Second units.
    pub su: u8,
}

/// RTC date register (`DR`), holding the calendar date in binary-coded
/// decimal: one field per decimal digit.
#[derive(Clone, Copy, PartialEq, Eq, Structural, Debug)]
pub struct RtcDr {
    /// Year tens (offset from the epoch year).
    pub yt: u8,
    /// Year units.
    pub yu: u8,
    /// Weekday.
    pub wdu: u8,
    /// Month tens.
    pub mt: bool,
    /// Month units.
    pub mu: u8,
    /// Date tens.
    pub dt: u8,
    /// Date units.
    pub du: u8,
}

/// RTC sub-second register (`SSR`): the synchronous prescaler's down-counter.
#[derive(Clone, Copy, PartialEq, Eq, Structural, Debug)]
pub struct RtcSsr {
    pub ss: u16,
}

/// One RTC alarm register (`ALRMAR` or `ALRMBR`).
#[derive(Clone, Copy, PartialEq, Eq, Structural, Debug)]
pub struct RtcAlrmr {
    pub dt: u8,
    pub du: u8,
    pub ht: u8,
    pub hu: u8,
    pub mnt: u8,
    pub mnu: u8,
    pub st: u8,
    pub su: u8,
    pub pm: bool,
    pub wdsel: bool,
}

/// RTC option register (`OR`).
#[derive(Clone, Copy, PartialEq, Eq, Structural, Debug)]
pub struct RtcOr {
    pub rtc_alarm_type: bool,
    pub rtc_out_rmp: bool,
}

/// The real-time clock peripheral. `wpr` holds the last byte written to the
/// write-protection key register.
#[derive(Clone, Copy, PartialEq, Eq, Structural, Debug)]
pub struct RTC {
    pub cr: RtcCr,
    pub isr: RtcIsr,
    pub prer: RtcPrer,
    pub wutr: RtcWutr,
    pub tr: RtcTr,
    pub dr: RtcDr,
    pub ssr: RtcSsr,
    pub alrmar: RtcAlrmr,
    pub alrmbr: RtcAlrmr,
    pub or_r: RtcOr,
    pub wpr: u8,
}

impl RTC {
    /// The register block as it stands after a backup-domain reset: the
    /// calendar at its epoch (weekday, month and date all one), the
    /// prescalers at their 32.768 kHz defaults, and the alarm and wakeup
    /// registers writable.
    pub open spec fn spec_reset() -> RTC {
        RTC {
            cr: RtcCr {
                fmt: false,
                osel: 0,
                pol: false,
                wute: false,
                wutie: false,
                wcksel: 0,
                bkp: false,
                alrae: false,
                alrbe: false,
                alraie: false,
                alrbie: false,
                tsie: false,
            },
            isr: RtcIsr {
                init: false,
                initf: false,
                wutwf: true,
                wutf: false,
                alrawf: true,
                alrbwf: true,
                alraf: false,
                alrbf: false,
                tsf: false,
            },
            prer: RtcPrer { prediv_a: 127, prediv_s: 255 },
            wutr: RtcWutr { wut: 0xFFFF },
            tr: RtcTr { pm: false, ht: 0, hu: 0, mnt: 0, mnu: 0, st: 0, su: 0 },
            dr: RtcDr { yt: 0, yu: 0, wdu: 1, mt: false, mu: 1, dt: 0, du: 1 },
            ssr: RtcSsr { ss: 0 },
            alrmar: RtcAlrmr {
                dt: 0,
                du: 0,
                ht: 0,
                hu: 0,
                mnt: 0,
                mnu: 0,
                st: 0,
                su: 0,
                pm: false,
                wdsel: false,
            },
            alrmbr: RtcAlrmr {
                dt: 0,
                du: 0,
                ht: 0,
                hu: 0,
                mnt: 0,
                mnu: 0,
                st: 0,
                su: 0,
                pm: false,
                wdsel: false,
            },
            or_r: RtcOr { rtc_alarm_type: false, rtc_out_rmp: false },
            wpr: 0,
        }
    }

    /// Build the register block in its reset state.
    pub fn reset() -> (r: RTC)
        ensures
            r == RTC::spec_reset(),
    {
        RTC {
            cr: RtcCr {
                fmt: false,
                osel: 0,
                pol: false,
                wute: false,
                wutie: false,
                wcksel: 0,
                bkp: false,
                alrae: false,
                alrbe: false,
                alraie: false,
                alrbie: false,
                tsie: false,
            },
            isr: RtcIsr {
                init: false,
                initf: false,
                wutwf: true,
                wutf: false,
                alrawf: true,
                alrbwf: true,
                alraf: false,
                alrbf: false,
                tsf: false,
            },
            prer: RtcPrer { prediv_a: 127, prediv_s: 255 },
            wutr: RtcWutr { wut: 0xFFFF },
            tr: RtcTr { pm: false, ht: 0, hu: 0, mnt: 0, mnu: 0, st: 0, su: 0 },
            dr: RtcDr { yt: 0, yu: 0, wdu: 1, mt: false, mu: 1, dt: 0, du: 1 },
            ssr: RtcSsr { ss: 0 },
            alrmar: RtcAlrmr {
                dt: 0,
                du: 0,
                ht: 0,
                hu: 0,
                mnt: 0,
                mnu: 0,
                st: 0,
                su: 0,
                pm: false,
                wdsel: false,
            },
            alrmbr: RtcAlrmr {
                dt: 0,
                du: 0,
                ht: 0,
                hu: 0,
                mnt: 0,
                mnu: 0,
                st: 0,
                su: 0,
                pm: false,
                wdsel: false,
            },
            or_r: RtcOr { rtc_alarm_type: false, rtc_out_rmp: false },
            wpr: 0,
        }
    }
}

/// EXTI interrupt mask register (`IMR1`), reduced to the RTC lines.
#[derive(Clone, Copy, PartialEq, Eq, Structural, Debug)]
pub struct ExtiImr1 {
    /// RTC alarm line.
    pub mr18: bool,
    /// RTC timestamp line.
    pub mr19: bool,
    /// RTC wakeup line.
    pub mr20: bool,
}

/// EXTI rising-edge trigger register (`RTSR1`), reduced to the RTC lines.
#[derive(Clone, Copy, PartialEq, Eq, Structural, Debug)]
pub struct ExtiRtsr1 {
    pub tr18: bool,
    pub tr19: bool,
    pub tr20: bool,
}

/// EXTI falling-edge trigger register (`FTSR1`), reduced to the RTC wakeup
/// line.
#[derive(Clone, Copy, PartialEq, Eq, Structural, Debug)]
pub struct ExtiFtsr1 {
    pub tr20: bool,
}

/// EXTI pending register (`PR1`), reduced to the RTC lines. A pending bit is
/// cleared by writing one to it on hardware; the model holds the settled
/// pending state.
#[derive(Clone, Copy, PartialEq, Eq, Structural, Debug)]
pub struct ExtiPr1 {
    pub pr18: bool,
    pub pr19: bool,
    pub pr20: bool,
}

/// The extended interrupt controller, reduced to the lines the RTC drives.
#[derive(Clone, Copy, PartialEq, Eq, Structural, Debug)]
pub struct EXTI {
    pub imr1: ExtiImr1,
    pub rtsr1: ExtiRtsr1,
    pub ftsr1: ExtiFtsr1,
    pub pr1: ExtiPr1,
}

impl EXTI {
    /// Build the register block in its reset state.
    pub fn reset() -> (r: EXTI)
        ensures
            r == (EXTI {
                imr1: ExtiImr1 { mr18: false, mr19: false, mr20: false },
                rtsr1: ExtiRtsr1 { tr18: false, tr19: false, tr20: false },
                ftsr1: ExtiFtsr1 { tr20: false },
                pr1: ExtiPr1 { pr18: false, pr19: false, pr20: false },
            }),
    {
        EXTI {
            imr1: ExtiImr1 { mr18: false, mr19: false, mr20: false },
            rtsr1: ExtiRtsr1 { tr18: false, tr19: false, tr20: false },
            ftsr1: ExtiFtsr1 { tr20: false },
            pr1: ExtiPr1 { pr18: false, pr19: false, pr20: false },
        }
    }
}

/// The APB1 peripheral-clock enable register, reduced to the bits the RTC
/// needs.
#[derive(Clone, Copy, PartialEq, Eq, Structural, Debug)]
pub struct APB1R1 {
    /// Power interface clock enable.
    pub pwren: bool,
    /// RTC APB clock enable.
    pub rtcapben: bool,
}

impl APB1R1 {
    /// Build the register block in its reset state.
    pub fn reset() -> (r: APB1R1)
        ensures
            r == (APB1R1 { pwren: false, rtcapben: false }),
    {
        APB1R1 { pwren: false, rtcapben: false }
    }
}

/// The backup domain control register.
#[derive(Clone, Copy, PartialEq, Eq, Structural, Debug)]
pub struct BDCR {
    /// Backup-domain software reset.
    pub bdrst: bool,
    pub lseon: bool,
    pub lsebyp: bool,
    pub lserdy: bool,
    pub lscosel: bool,
    pub lscoen: bool,
    /// RTC clock source selection; write-once while the RTC is enabled.
    pub rtcsel: u8,
    pub rtcen: bool,
}

impl BDCR {
    /// The register as it stands after a backup-domain reset.
    pub open spec fn spec_reset() -> BDCR {
        BDCR {
            bdrst: false,
            lseon: false,
            lsebyp: false,
            lserdy: false,
            lscosel: false,
            lscoen: false,
            rtcsel: 0,
            rtcen: false,
        }
    }

    /// Build the register in its reset state.
    pub fn reset() -> (r: BDCR)
        ensures
            r == BDCR::spec_reset(),
    {
        BDCR {
            bdrst: false,
            lseon: false,
            lsebyp: false,
            lserdy: false,
            lscosel: false,
            lscoen: false,
            rtcsel: 0,
            rtcen: false,
        }
    }
}

/// The Cortex system control block, reduced to the sleep-depth bit this crate
/// drives.
#[derive(Clone, Copy, PartialEq, Eq, Structural, Debug)]
pub struct SCB {
    pub sleepdeep: bool,
}

impl SCB {
    /// Build the block in its reset state.
    pub fn reset() -> (r: SCB)
        ensures
            r == (SCB { sleepdeep: false }),
    {
        SCB { sleepdeep: false }
    }

    /// Request deep sleep on the next wait-for-interrupt.
    pub fn set_sleepdeep(&mut self)
        ensures
            *final(self) == (SCB { sleepdeep: true }),
    {
        self.sleepdeep = true;
    }

    /// Request ordinary sleep on the next wait-for-interrupt.
    pub fn clear_sleepdeep(&mut self)
        ensures
            *final(self) == (SCB { sleepdeep: false }),
    {
        self.sleepdeep = false;
    }
}

} // verus!
