//! RTC peripheral abstraction: calendar, alarms, and the periodic wakeup
//! timer, including the encoder that turns a requested sleep interval into a
//! clock-division selector and reload value.

use vstd::prelude::*;
use vstd::arithmetic::div_mod::lemma_fundamental_div_mod;
use vstd::arithmetic::div_mod::lemma_div_non_zero;
use vstd::arithmetic::div_mod::lemma_div_pos_is_pos;
use vstd::arithmetic::mul::lemma_mul_inequality;
use vstd::arithmetic::mul::lemma_mul_upper_bound;
use crate::datetime::{Date, Time};
use crate::pac::{APB1R1, BDCR, EXTI, ExtiFtsr1, ExtiImr1, ExtiPr1, ExtiRtsr1, PWR, PwrCr1, RCC, RccCsr, RTC, RtcAlrmr, RtcCr, RtcDr, RtcIsr, RtcOr, RtcPrer, RtcTr, RtcWutr};

verus! {

/// RTC clock source.
#[derive(Copy, Clone, Debug, PartialEq, Eq, Structural)]
pub enum RtcClockSource {
    /// LSE oscillator clock used as RTC clock.
    Lse,
    /// LSI oscillator clock used as RTC clock.
    Lsi,
    /// HSE oscillator clock divided by 32 used as RTC clock.
    Hse,
}

impl RtcClockSource {
    /// The `RTCSEL` register field value for this source.
    pub open spec fn spec_bits(self) -> u8 {
        match self {
            RtcClockSource::Lse => 0b01,
            RtcClockSource::Lsi => 0b10,
            RtcClockSource::Hse => 0b11,
        }
    }

    /// The `RTCSEL` register field value for this source.
    pub fn bits(&self) -> (r: u8)
        ensures
            r == self.spec_bits(),
    {
        match self {
            RtcClockSource::Lse => 0b01,
            RtcClockSource::Lsi => 0b10,
            RtcClockSource::Hse => 0b11,
        }
    }

    /// The frequency in hertz this source feeds the RTC's wakeup prescaler.
    /// The HSE figure assumes an 8 MHz crystal behind the fixed divide-by-32.
    pub open spec fn spec_freq_hz(self) -> u32 {
        match self {
            RtcClockSource::Lse => 32_768,
            RtcClockSource::Lsi => 32_000,
            RtcClockSource::Hse => 250_000,
        }
    }

    /// The frequency in hertz this source feeds the RTC's wakeup prescaler.
    pub fn freq_hz(&self) -> (r: u32)
        ensures
            r == self.spec_freq_hz(),
    {
        match self {
            RtcClockSource::Lse => 32_768,
            RtcClockSource::Lsi => 32_000,
            RtcClockSource::Hse => 250_000,
        }
    }
}

/// RTC error type.
#[derive(Debug)]
pub enum Error {
    /// Invalid input error.
    InvalidInputData,
}

/// Interrupt event.
pub enum Event {
    WakeupTimer,
    AlarmA,
    AlarmB,
    Timestamp,
}

pub enum Alarm {
    AlarmA,
    AlarmB,
}

impl From<Alarm> for Event {
    /// The interrupt event an alarm raises.
    fn from(a: Alarm) -> (r: Self) {
        match a {
            Alarm::AlarmA => Event::AlarmA,
            Alarm::AlarmB => Event::AlarmB,
        }
    }
}

impl vstd::std_specs::convert::FromSpecImpl<Alarm> for Event {
    open spec fn obeys_from_spec() -> bool {
        true
    }

    open spec fn from_spec(a: Alarm) -> Event {
        match a {
            Alarm::AlarmA => Event::AlarmA,
            Alarm::AlarmB => Event::AlarmB,
        }
    }
}

/// RTC configuration: clock source and prescalers.
#[derive(Copy, Clone, Debug, PartialEq, Eq, Structural)]
pub struct RtcConfig {
    /// RTC clock source.
    pub clock_source: RtcClockSource,
    /// Asynchronous prescaler factor. The asynchronous division stage runs
    /// at the RTC clock over this factor plus one and drives the sub-second
    /// register.
    pub async_prescaler: u8,
    /// Synchronous prescaler factor. The synchronous division stage divides
    /// further by this factor plus one, and must leave a 1 Hz calendar clock.
    pub sync_prescaler: u16,
    pub bypass_lse_output: bool,
}

impl Default for RtcConfig {
    /// LSI, with prescalers assuming 32.768 kHz.
    /// Raw sub-seconds in 1/256.
    fn default() -> (r: Self)
        ensures
            r == (RtcConfig {
                clock_source: RtcClockSource::Lsi,
                async_prescaler: 127,
                sync_prescaler: 255,
                bypass_lse_output: false,
            }),
    {
        RtcConfig {
            clock_source: RtcClockSource::Lsi,
            async_prescaler: 127,
            sync_prescaler: 255,
            bypass_lse_output: false,
        }
    }
}

impl RtcConfig {
    /// Sets the clock source of RTC config.
    pub fn clock_source(self, source: RtcClockSource) -> (r: Self)
        ensures
            r == (RtcConfig { clock_source: source, ..self }),
    {
        RtcConfig { clock_source: source, ..self }
    }

    /// Set the asynchronous prescaler of RTC config.
    pub fn async_prescaler(self, prescaler: u8) -> (r: Self)
        ensures
            r == (RtcConfig { async_prescaler: prescaler, ..self }),
    {
        RtcConfig { async_prescaler: prescaler, ..self }
    }

    /// Set the synchronous prescaler of RTC config.
    pub fn sync_prescaler(self, prescaler: u16) -> (r: Self)
        ensures
            r == (RtcConfig { sync_prescaler: prescaler, ..self }),
    {
        RtcConfig { sync_prescaler: prescaler, ..self }
    }

    /// Choose whether to bypass the output line to the LSE, and configure it
    /// as a GPIO.
    pub fn bypass_lse_output(self, bypass: bool) -> (r: Self)
        ensures
            r == (RtcConfig { bypass_lse_output: bypass, ..self }),
    {
        RtcConfig { bypass_lse_output: bypass, ..self }
    }
}

/// Wakeup period outside the representable domain of 122.07 µs to 36 hours.
#[derive(Clone, Copy, PartialEq, Eq, Structural, Debug)]
pub struct RangeError {}

/// The hardware encoding of a wakeup interval: the three-bit clock-division
/// selector written to `WUCKSEL`, and the sixteen-bit reload value written to
/// the wakeup timer register.
#[derive(Clone, Copy, PartialEq, Eq, Structural, Debug)]
pub struct WakeupEncoding {
    pub division_selector: u8,
    pub reload_value: u16,
}

/// Does a requested wakeup interval, in nanoseconds, lie in the encoder's
/// representable domain? The lower bound is the smallest interval the fastest
/// division ratio can express with a one-count reload; the upper bound is 36
/// hours.
pub open spec fn spec_wakeup_in_domain(ns: int) -> bool {
    122_070 <= ns < 131_072_000_000_000
}

/// The divisor of the fine-resolution regime's four bands, for intervals
/// below 32 seconds.
pub open spec fn spec_wakeup_division(ns: int) -> int {
    if ns < 4_000_000_000 {
        2
    } else if ns < 8_000_000_000 {
        4
    } else if ns < 16_000_000_000 {
        8
    } else {
        16
    }
}

/// The three-bit wakeup clock selector for an interval: one of the four
/// divided-clock bands below 32 seconds, the one-second clock up to 18 hours,
/// and the one-second clock with an extra 2^16 counts beyond. The fine
/// regime reaches up to 32 seconds and the one-second regime down to one:
/// in the overlap the finer resolution wins.
pub open spec fn spec_wakeup_selector(ns: int) -> u8 {
    if ns < 32_000_000_000 {
        if ns < 4_000_000_000 {
            0b011
        } else if ns < 8_000_000_000 {
            0b010
        } else if ns < 16_000_000_000 {
            0b001
        } else {
            0b000
        }
    } else if ns < 65_536_000_000_000 {
        0b100
    } else {
        0b110
    }
}

/// The sixteen-bit reload value for an interval (nanoseconds) and RTC source
/// frequency (hertz). Below 32 seconds the interval is converted to divided
/// clock ticks, rounded to nearest, less the one count the hardware adds;
/// up to 18 hours the reload is the whole second count; beyond, the second
/// count less the 2^16 + 1 counts the selector adds. A value that cannot fit
/// the sixteen-bit register saturates at its bounds.
pub open spec fn spec_wakeup_reload(ns: int, freq: int) -> int {
    if ns < 32_000_000_000 {
        let div = spec_wakeup_division(ns);
        let ticks = (ns * freq + div * 500_000_000) / (div * 1_000_000_000);
        if ticks < 1 {
            0
        } else if ticks - 1 > 65_535 {
            65_535
        } else {
            ticks - 1
        }
    } else if ns < 65_536_000_000_000 {
        ns / 1_000_000_000
    } else {
        let secs = ns / 1_000_000_000;
        if secs < 65_537 {
            0
        } else if secs - 65_537 > 65_535 {
            65_535
        } else {
            secs - 65_537
        }
    }
}

/// Choose a wakeup clock division and reload value for the requested sleep
/// interval, in nanoseconds, given the RTC's clock source. Returns the
/// encoding exactly when the interval lies in the representable domain of
/// 122.07 µs to 36 hours, and a range error otherwise.
pub fn encode_wakeup(sleep_time_ns: u64, source: RtcClockSource) -> (r: Result<
    WakeupEncoding,
    RangeError,
>)
    ensures
        spec_wakeup_in_domain(sleep_time_ns as int) ==> (r matches Ok(enc)
            && enc.division_selector == spec_wakeup_selector(sleep_time_ns as int)
            && enc.reload_value == spec_wakeup_reload(
            sleep_time_ns as int,
            source.spec_freq_hz() as int,
        )),
        !spec_wakeup_in_domain(sleep_time_ns as int) ==> (r is Err),
{
    if sleep_time_ns < 122_070 || sleep_time_ns >= 131_072_000_000_000 {
        return Err(RangeError {});
    }

    let lfe_freq = source.freq_hz() as u64;

    if sleep_time_ns < 32_000_000_000 {
        // The four divided-clock bands, finest first.
        let (div, selector): (u64, u8) = if sleep_time_ns < 4_000_000_000 {
            (2, 0b011)  // Resolution: 61.035 µs
        } else if sleep_time_ns < 8_000_000_000 {
            (4, 0b010)  // Resolution: 122.08 µs
        } else if sleep_time_ns < 16_000_000_000 {
            (8, 0b001)  // Resolution: 244.141 µs
        } else {
            (16, 0b000)  // Resolution: 488.281 µs
        };
        // ticks = round(interval * frequency / divisor), in whole clock
        // periods; the counter adds one period to the programmed value.
        proof {
            lemma_mul_upper_bound(sleep_time_ns as int, 32_000_000_000, lfe_freq as int, 250_000);
        }
        let numerator = sleep_time_ns * lfe_freq + div * 500_000_000;
        let denominator = div * 1_000_000_000;
        let ticks = numerator / denominator;
        proof {
            // Each band's interval floor keeps the rounded tick count at one
            // or more, so the subtraction below cannot underflow.
            assert(numerator >= denominator) by (nonlinear_arith)
                requires
                    lfe_freq >= 32_000,
                    (div == 2 && sleep_time_ns >= 122_070) || (div == 4 && sleep_time_ns
                        >= 4_000_000_000) || (div == 8 && sleep_time_ns >= 8_000_000_000) || (div
                        == 16 && sleep_time_ns >= 16_000_000_000),
                    numerator == sleep_time_ns * lfe_freq + div * 500_000_000,
                    denominator == div * 1_000_000_000,
            ;
            lemma_div_non_zero(numerator as int, denominator as int);
        }
        let wide = ticks - 1;
        let reload = if wide > 65_535 {
            65_535
        } else {
            wide as u16
        };
        Ok(WakeupEncoding { division_selector: selector, reload_value: reload })
    } else if sleep_time_ns < 65_536_000_000_000 {
        // 32 s to 18 hours on the one-second clock. That clock reaches down
        // to one second; the finer bands above take the overlap.
        let reload = (sleep_time_ns / 1_000_000_000) as u16;
        Ok(WakeupEncoding { division_selector: 0b100, reload_value: reload })
    } else {
        // 18 to 36 hours: the one-second clock with 2^16 added to the
        // counter value.
        let secs = sleep_time_ns / 1_000_000_000;
        let reload = if secs < 65_537 {
            0
        } else {
            (secs - 65_537) as u16
        };
        Ok(WakeupEncoding { division_selector: 0b110, reload_value: reload })
    }
}

/// The RTC register block as [`Rtc::new`] leaves it: the backup-domain reset
/// state with 24-hour format, outputs disabled, the configured prescalers,
/// and write protection re-armed.
pub open spec fn spec_regs_after_new(config: RtcConfig) -> RTC {
    RTC {
        cr: RtcCr { fmt: false, osel: 0, pol: false, ..RTC::spec_reset().cr },
        prer: RtcPrer { prediv_a: config.async_prescaler, prediv_s: config.sync_prescaler },
        or_r: RtcOr { rtc_alarm_type: false, rtc_out_rmp: false },
        wpr: 0xFF,
        ..RTC::spec_reset()
    }
}

/// The time register encoding of a time of day: each decimal digit in its
/// BCD field, in 24-hour mode.
pub open spec fn spec_tr_encoded(time: Time) -> RtcTr {
    RtcTr {
        pm: false,
        ht: (time.hours / 10) as u8,
        hu: (time.hours % 10) as u8,
        mnt: (time.minutes / 10) as u8,
        mnu: (time.minutes % 10) as u8,
        st: (time.seconds / 10) as u8,
        su: (time.seconds % 10) as u8,
    }
}

/// The date register encoding of a date: each decimal digit in its BCD
/// field, the year as an offset from the 1970 epoch.
pub open spec fn spec_dr_encoded(date: Date) -> RtcDr {
    RtcDr {
        yt: (((date.year - 1970) / 10) as u8),
        yu: (((date.year - 1970) % 10) as u8),
        wdu: date.day as u8,
        mt: date.month >= 10,
        mu: (date.month % 10) as u8,
        dt: (date.date / 10) as u8,
        du: (date.date % 10) as u8,
    }
}

/// The alarm register encoding of a date and time: day-of-month and time
/// digits in their BCD fields, 24-hour, matching on the date (not the
/// weekday).
pub open spec fn spec_alrmr_encoded(date: Date, time: Time) -> RtcAlrmr {
    RtcAlrmr {
        dt: (date.date / 10) as u8,
        du: (date.date % 10) as u8,
        ht: (time.hours / 10) as u8,
        hu: (time.hours % 10) as u8,
        mnt: (time.minutes / 10) as u8,
        mnu: (time.minutes % 10) as u8,
        st: (time.seconds / 10) as u8,
        su: (time.seconds % 10) as u8,
        pm: false,
        wdsel: false,
    }
}

/// Real Time Clock peripheral.
pub struct Rtc {
    /// RTC peripheral register model.
    pub regs: RTC,
    pub config: RtcConfig,
}

impl Rtc {
    /// The calendar and sub-second registers hold what the hardware can
    /// produce: binary-coded-decimal digit fields, and a sub-second count no
    /// larger than the synchronous prescaler.
    pub open spec fn wf(self) -> bool {
        &&& self.regs.tr.ht < 10
        &&& self.regs.tr.hu < 16
        &&& self.regs.tr.mnt < 10
        &&& self.regs.tr.mnu < 16
        &&& self.regs.tr.st < 10
        &&& self.regs.tr.su < 16
        &&& self.regs.dr.dt < 10
        &&& self.regs.dr.du < 16
        &&& self.regs.dr.mu < 16
        &&& self.regs.dr.yt < 10
        &&& self.regs.dr.yu < 16
        &&& self.regs.ssr.ss <= self.config.sync_prescaler
    }

    /// Disable the register write protection by its two-byte key sequence,
    /// and enter init mode (stopping the calendar for edits) when asked. On
    /// hardware entering init mode is confirmed by polling INITF; the model
    /// records the settled state.
    fn begin_edit(&mut self, init_mode: bool)
        ensures
            final(self).config == old(self).config,
            final(self).regs == (RTC {
                wpr: 0x53,
                isr: if init_mode && !old(self).regs.isr.initf {
                    RtcIsr { init: true, initf: true, ..old(self).regs.isr }
                } else {
                    old(self).regs.isr
                },
                ..old(self).regs
            }),
    {
        self.regs.wpr = 0xCA;
        self.regs.wpr = 0x53;

        // Enter init mode if required. This is generally used to edit the
        // clock or calendar, but not for initial enabling steps.
        if init_mode && !self.regs.isr.initf {
            let mut isr = self.regs.isr;
            isr.init = true;
            isr.initf = true;
            self.regs.isr = isr;
        }
    }

    /// Leave init mode where it was entered, and re-arm the write
    /// protection.
    fn end_edit(&mut self, init_mode: bool)
        ensures
            final(self).config == old(self).config,
            final(self).regs == (RTC {
                wpr: 0xFF,
                isr: if init_mode {
                    RtcIsr { init: false, initf: false, ..old(self).regs.isr }
                } else {
                    old(self).regs.isr
                },
                ..old(self).regs
            }),
    {
        if init_mode {
            let mut isr = self.regs.isr;
            isr.init = false;
            isr.initf = false;
            self.regs.isr = isr;
        }
        // Re-enable write protection.
        self.regs.wpr = 0xFF;
    }

    /// Create and enable a new RTC abstraction, and configure its clock
    /// source and prescalers. The backup domain is reset on the way, so the
    /// whole RTC register block restarts from its reset values.
    ///
    /// When using the LSE, set the synchronous prescaler to 255 and the
    /// asynchronous to 127 to get a 1 Hz calendar clock. `bypass_lse_output`
    /// in the configuration is for an external oscillator that does not
    /// connect to the low-speed crystal input, such as a MEMS resonator.
    /// When using the HSE as the clock source it must already be enabled, eg
    /// in clock config. On hardware the backup-domain grant and the
    /// oscillator enables are each confirmed by an unbounded poll; the model
    /// records the settled state.
    pub fn new(
        regs: RTC,
        apb1r1: &mut APB1R1,
        bdcr: &mut BDCR,
        pwr: &mut PWR,
        rcc: &mut RCC,
        config: RtcConfig,
    ) -> (r: Self)
        ensures
            r.config == config,
            r.regs == spec_regs_after_new(config),
            r.wf(),
            *final(apb1r1) == (APB1R1 { pwren: true, rtcapben: true }),
            *final(pwr) == (PWR { cr1: PwrCr1 { dbp: true, ..old(pwr).cr1 }, ..*old(pwr) }),
            *final(bdcr) == (BDCR {
                lseon: config.clock_source is Lse,
                lsebyp: (config.clock_source is Lse) && config.bypass_lse_output,
                lserdy: config.clock_source is Lse,
                rtcsel: config.clock_source.spec_bits(),
                rtcen: true,
                ..BDCR::spec_reset()
            }),
            *final(rcc) == (RCC {
                csr: RccCsr { lsion: old(rcc).csr.lsion || (config.clock_source is Lsi) },
                ..*old(rcc)
            }),
    {
        let mut result = Self { regs, config };

        // Enable the power interface and RTC APB clocks: PWREN must be set
        // before RTC register writes will stick.
        apb1r1.pwren = true;
        apb1r1.rtcapben = true;

        // Unlock the backup domain, and wait for the grant.
        let mut cr1 = pwr.cr1;
        cr1.dbp = true;
        pwr.cr1 = cr1;

        // Reset the backup domain: the RTC registers and the backup-domain
        // control register itself return to their reset values.
        *bdcr = BDCR::reset();
        result.regs = RTC::reset();

        // Set up the LSI or LSE as required, waiting for it to come up.
        match config.clock_source {
            RtcClockSource::Lsi => {
                let mut csr = rcc.csr;
                csr.lsion = true;
                rcc.csr = csr;
            }
            RtcClockSource::Lse => {
                bdcr.lseon = true;
                bdcr.lsebyp = config.bypass_lse_output;
                bdcr.lserdy = true;
            }
            _ => (),
        }

        // Select the RTC clock source (write-once while the RTC is enabled)
        // and enable the RTC.
        bdcr.rtcsel = config.clock_source.bits();
        bdcr.rtcen = true;

        result.begin_edit(false);

        let mut cr = result.regs.cr;
        cr.fmt = false;  // 24-hour format
        cr.osel = 0b00;  // alarm/wakeup output disabled
        cr.pol = false;  // polarity high
        result.regs.cr = cr;

        result.regs.prer = RtcPrer {
            prediv_a: config.async_prescaler,
            prediv_s: config.sync_prescaler,
        };

        result.regs.or_r = RtcOr { rtc_alarm_type: false, rtc_out_rmp: false };

        result.end_edit(false);

        result
    }

    /// Sets calendar clock to 24 hr format.
    pub fn set_24h_fmt(&mut self)
        ensures
            final(self).config == old(self).config,
            final(self).regs == (RTC {
                cr: RtcCr { fmt: true, ..old(self).regs.cr },
                isr: RtcIsr { init: false, initf: false, ..old(self).regs.isr },
                wpr: 0xFF,
                ..old(self).regs
            }),
    {
        self.begin_edit(true);
        let mut cr = self.regs.cr;
        cr.fmt = true;
        self.regs.cr = cr;
        self.end_edit(true);
    }

    /// Sets calendar clock to 12 hr format.
    pub fn set_12h_fmt(&mut self)
        ensures
            final(self).config == old(self).config,
            final(self).regs == (RTC {
                cr: RtcCr { fmt: false, ..old(self).regs.cr },
                isr: RtcIsr { init: false, initf: false, ..old(self).regs.isr },
                wpr: 0xFF,
                ..old(self).regs
            }),
    {
        self.begin_edit(true);
        let mut cr = self.regs.cr;
        cr.fmt = false;
        self.regs.cr = cr;
        self.end_edit(true);
    }

    /// Reads current hour format selection.
    pub fn is_24h_fmt(&self) -> (r: bool)
        ensures
            r == self.regs.cr.fmt,
    {
        self.regs.cr.fmt
    }

    /// Program the wakeup interval, with the registers already unlocked: the
    /// reload value into the wakeup timer register, and the chosen clock
    /// division into the wakeup clock selector.
    fn set_wakeup_interval_inner(&mut self, sleep_time_ns: u64)
        requires
            spec_wakeup_in_domain(sleep_time_ns as int),
        ensures
            final(self).config == old(self).config,
            final(self).regs == (RTC {
                wutr: RtcWutr {
                    wut: spec_wakeup_reload(
                        sleep_time_ns as int,
                        old(self).config.clock_source.spec_freq_hz() as int,
                    ) as u16,
                },
                cr: RtcCr {
                    wcksel: spec_wakeup_selector(sleep_time_ns as int),
                    ..old(self).regs.cr
                },
                ..old(self).regs
            }),
    {
        if let Ok(encoding) = encode_wakeup(sleep_time_ns, self.config.clock_source) {
            self.regs.wutr = RtcWutr { wut: encoding.reload_value };
            let mut cr = self.regs.cr;
            cr.wcksel = encoding.division_selector;
            self.regs.cr = cr;
        }
    }

    /// Setup periodic auto-wakeup interrupts: configure the EXTI wakeup line
    /// for rising-edge interrupts, program the interval, and enable the
    /// wakeup timer with its interrupt. The interval, in nanoseconds, must
    /// lie in the encoder's representable domain of 122.07 µs to 36 hours.
    #[verifier::rlimit(50)]
    pub fn set_wakeup(&mut self, exti: &mut EXTI, sleep_time_ns: u64)
        requires
            spec_wakeup_in_domain(sleep_time_ns as int),
        ensures
            final(self).config == old(self).config,
            *final(exti) == (EXTI {
                imr1: ExtiImr1 { mr20: true, ..old(exti).imr1 },
                rtsr1: ExtiRtsr1 { tr20: true, ..old(exti).rtsr1 },
                ftsr1: ExtiFtsr1 { tr20: false },
                ..*old(exti)
            }),
            final(self).regs == (RTC {
                cr: RtcCr {
                    wute: true,
                    wutie: true,
                    wcksel: spec_wakeup_selector(sleep_time_ns as int),
                    ..old(self).regs.cr
                },
                isr: RtcIsr { wutwf: false, wutf: false, ..old(self).regs.isr },
                wutr: RtcWutr {
                    wut: spec_wakeup_reload(
                        sleep_time_ns as int,
                        old(self).config.clock_source.spec_freq_hz() as int,
                    ) as u16,
                },
                wpr: 0xFF,
                ..old(self).regs
            }),
    {
        // Configure and enable the EXTI line corresponding to the wakeup
        // timer event in interrupt mode, rising-edge sensitive.
        let mut imr1 = exti.imr1;
        imr1.mr20 = true;
        exti.imr1 = imr1;
        let mut rtsr1 = exti.rtsr1;
        rtsr1.tr20 = true;
        exti.rtsr1 = rtsr1;
        exti.ftsr1 = ExtiFtsr1 { tr20: false };

        self.regs.wpr = 0xCA;
        self.regs.wpr = 0x53;

        // Disable the wakeup timer; the hardware then grants write access to
        // the wakeup registers (WUTWF sets, polled unbounded on the device).
        let mut cr = self.regs.cr;
        cr.wute = false;
        self.regs.cr = cr;
        let mut isr = self.regs.isr;
        isr.wutwf = true;
        self.regs.isr = isr;

        self.set_wakeup_interval_inner(sleep_time_ns);

        // Re-enable the wakeup timer (it restarts counting down), enable its
        // interrupt, and clear the fired flag.
        let mut cr = self.regs.cr;
        cr.wute = true;
        cr.wutie = true;
        self.regs.cr = cr;
        let mut isr = self.regs.isr;
        isr.wutwf = false;
        isr.wutf = false;
        self.regs.isr = isr;

        self.regs.wpr = 0xFF;
    }

    /// Enable the wakeup timer.
    pub fn enable_wakeup(&mut self)
        ensures
            final(self).config == old(self).config,
            final(self).regs == (RTC {
                cr: RtcCr { wute: true, ..old(self).regs.cr },
                isr: RtcIsr { wutwf: false, ..old(self).regs.isr },
                wpr: 0xFF,
                ..old(self).regs
            }),
    {
        self.regs.wpr = 0xCA;
        self.regs.wpr = 0x53;
        let mut cr = self.regs.cr;
        cr.wute = true;
        self.regs.cr = cr;
        // The running timer revokes write access to the wakeup registers.
        let mut isr = self.regs.isr;
        isr.wutwf = false;
        self.regs.isr = isr;
        self.regs.wpr = 0xFF;
    }

    /// Disable the wakeup timer.
    pub fn disable_wakeup(&mut self)
        ensures
            final(self).config == old(self).config,
            final(self).regs == (RTC {
                cr: RtcCr { wute: false, ..old(self).regs.cr },
                isr: RtcIsr { wutwf: true, ..old(self).regs.isr },
                wpr: 0xFF,
                ..old(self).regs
            }),
    {
        self.regs.wpr = 0xCA;
        self.regs.wpr = 0x53;
        let mut cr = self.regs.cr;
        cr.wute = false;
        self.regs.cr = cr;
        // The stopped timer grants write access to the wakeup registers.
        let mut isr = self.regs.isr;
        isr.wutwf = true;
        self.regs.isr = isr;
        self.regs.wpr = 0xFF;
    }

    /// Change the sleep interval for the auto wakeup, after it has been set
    /// up. The interval, in nanoseconds, must lie in the encoder's
    /// representable domain of 122.07 µs to 36 hours.
    pub fn set_wakeup_interval(&mut self, sleep_time_ns: u64)
        requires
            spec_wakeup_in_domain(sleep_time_ns as int),
        ensures
            final(self).config == old(self).config,
            final(self).regs == (RTC {
                cr: RtcCr {
                    wute: true,
                    wcksel: spec_wakeup_selector(sleep_time_ns as int),
                    ..old(self).regs.cr
                },
                isr: RtcIsr { wutwf: false, ..old(self).regs.isr },
                wutr: RtcWutr {
                    wut: spec_wakeup_reload(
                        sleep_time_ns as int,
                        old(self).config.clock_source.spec_freq_hz() as int,
                    ) as u16,
                },
                wpr: 0xFF,
                ..old(self).regs
            }),
    {
        self.regs.wpr = 0xCA;
        self.regs.wpr = 0x53;

        // Disable the wakeup timer, and wait for write access.
        let mut cr = self.regs.cr;
        cr.wute = false;
        self.regs.cr = cr;
        let mut isr = self.regs.isr;
        isr.wutwf = true;
        self.regs.isr = isr;

        self.set_wakeup_interval_inner(sleep_time_ns);

        let mut cr = self.regs.cr;
        cr.wute = true;
        self.regs.cr = cr;
        let mut isr = self.regs.isr;
        isr.wutwf = false;
        self.regs.isr = isr;

        self.regs.wpr = 0xFF;
    }

    /// Get date and time tuple, decoded from the calendar registers; the
    /// sub-second register and the synchronous prescaler give the
    /// microseconds.
    pub fn get_date_time(&self) -> (r: (Date, Time))
        requires
            self.wf(),
        ensures
            r.0 == (Date {
                day: self.regs.dr.wdu as u32,
                date: (self.regs.dr.dt * 10 + self.regs.dr.du) as u32,
                month: ((if self.regs.dr.mt {
                    10int
                } else {
                    0int
                }) + self.regs.dr.mu) as u32,
                year: (self.regs.dr.yt * 10 + self.regs.dr.yu + 1970) as u32,
            }),
            r.1 == (Time {
                hours: (self.regs.tr.ht * 10 + self.regs.tr.hu) as u32,
                minutes: (self.regs.tr.mnt * 10 + self.regs.tr.mnu) as u32,
                seconds: (self.regs.tr.st * 10 + self.regs.tr.su) as u32,
                micros: (1_000_000int / (self.config.sync_prescaler as int + 1) * (
                self.config.sync_prescaler as int - self.regs.ssr.ss as int)) as u32,
                daylight_savings: self.regs.cr.bkp,
            }),
    {
        let sync_p = self.config.sync_prescaler as u32;
        let ss = self.regs.ssr.ss as u32;
        let quotient = 1_000_000u32 / (sync_p + 1);
        proof {
            lemma_fundamental_div_mod(1_000_000, sync_p as int + 1);
            lemma_div_pos_is_pos(1_000_000, sync_p as int + 1);
            lemma_mul_inequality((sync_p - ss) as int, sync_p as int + 1, quotient as int);
        }
        let micros = quotient * (sync_p - ss);

        let timer = self.regs.tr;
        let cr = self.regs.cr;

        // Reading either the sub-second or time register locks the
        // higher-order calendar shadow registers until the date is read.
        let dater = self.regs.dr;

        let time = Time::new(
            bcd2_to_byte((timer.ht, timer.hu)) as u32,
            bcd2_to_byte((timer.mnt, timer.mnu)) as u32,
            bcd2_to_byte((timer.st, timer.su)) as u32,
            micros,
            cr.bkp,
        );

        let date = Date::new(
            dater.wdu as u32,
            bcd2_to_byte((dater.dt, dater.du)) as u32,
            bcd2_to_byte((if dater.mt { 1 } else { 0 }, dater.mu)) as u32,
            bcd2_to_byte((dater.yt, dater.yu)) as u16 as u32 + 1970,
        );

        (date, time)
    }

    /// Set date and time.
    pub fn set_date_time(&mut self, date: Date, time: Time)
        requires
            date.spec_valid(),
            time.spec_valid(),
        ensures
            final(self).config == old(self).config,
            final(self).regs == (RTC {
                tr: spec_tr_encoded(time),
                dr: spec_dr_encoded(date),
                cr: RtcCr { bkp: time.daylight_savings, ..old(self).regs.cr },
                isr: RtcIsr { init: false, initf: false, ..old(self).regs.isr },
                wpr: 0xFF,
                ..old(self).regs
            }),
    {
        self.begin_edit(true);
        let mut regs = self.regs;
        set_time_raw(&mut regs, time);
        set_date_raw(&mut regs, date);
        self.regs = regs;
        self.end_edit(true);
    }

    /// Set time.
    /// Note: if setting both time and date, use [`Rtc::set_date_time`] to
    /// avoid errors.
    pub fn set_time(&mut self, time: Time)
        requires
            time.spec_valid(),
        ensures
            final(self).config == old(self).config,
            final(self).regs == (RTC {
                tr: spec_tr_encoded(time),
                cr: RtcCr { bkp: time.daylight_savings, ..old(self).regs.cr },
                isr: RtcIsr { init: false, initf: false, ..old(self).regs.isr },
                wpr: 0xFF,
                ..old(self).regs
            }),
    {
        self.begin_edit(true);
        let mut regs = self.regs;
        set_time_raw(&mut regs, time);
        self.regs = regs;
        self.end_edit(true);
    }

    /// Set date.
    /// Note: if setting both time and date, use [`Rtc::set_date_time`] to
    /// avoid errors.
    pub fn set_date(&mut self, date: Date)
        requires
            date.spec_valid(),
        ensures
            final(self).config == old(self).config,
            final(self).regs == (RTC {
                dr: spec_dr_encoded(date),
                isr: RtcIsr { init: false, initf: false, ..old(self).regs.isr },
                wpr: 0xFF,
                ..old(self).regs
            }),
    {
        self.begin_edit(true);
        let mut regs = self.regs;
        set_date_raw(&mut regs, date);
        self.regs = regs;
        self.end_edit(true);
    }

    /// The configuration this abstraction was built with.
    pub fn get_config(&self) -> (r: RtcConfig)
        ensures
            r == self.config,
    {
        self.config
    }

    /// Sets the date and time at which an alarm will be triggered, enables
    /// the alarm, and clears its fired flag.
    #[verifier::rlimit(100)]
    pub fn set_alarm(&mut self, exti: &mut EXTI, alarm: Alarm, date: Date, time: Time)
        requires
            date.spec_valid(),
            time.spec_valid(),
        ensures
            final(self).config == old(self).config,
            (alarm is AlarmA) ==> final(self).regs == (RTC {
                alrmar: spec_alrmr_encoded(date, time),
                cr: RtcCr { alrae: true, ..old(self).regs.cr },
                isr: RtcIsr { alrawf: false, alraf: false, ..old(self).regs.isr },
                wpr: 0xFF,
                ..old(self).regs
            }),
            (alarm is AlarmB) ==> final(self).regs == (RTC {
                alrmbr: spec_alrmr_encoded(date, time),
                cr: RtcCr { alrbe: true, ..old(self).regs.cr },
                isr: RtcIsr { alrbwf: false, alrbf: false, ..old(self).regs.isr },
                wpr: 0xFF,
                ..old(self).regs
            }),
            *final(exti) == (EXTI {
                pr1: ExtiPr1 { pr18: false, ..old(exti).pr1 },
                ..*old(exti)
            }),
    {
        let (dt, du) = bcd_digits(date.date as u8);
        let (ht, hu) = bcd_digits(time.hours as u8);
        let (mnt, mnu) = bcd_digits(time.minutes as u8);
        let (st, su) = bcd_digits(time.seconds as u8);
        let encoded = RtcAlrmr { dt, du, ht, hu, mnt, mnu, st, su, pm: false, wdsel: false };

        self.begin_edit(false);
        let cr = self.regs.cr;
        let isr = self.regs.isr;
        match alarm {
            Alarm::AlarmA => {
                // Disabling the alarm makes its configuration writable (the
                // device grants ALRAWF after an unbounded poll); once the
                // fields are written the alarm is re-enabled, which revokes
                // the write access again.
                self.regs.cr = RtcCr { alrae: false, ..cr };
                self.regs.isr = RtcIsr { alrawf: true, ..isr };

                self.regs.alrmar = encoded;

                self.regs.cr = RtcCr { alrae: true, ..cr };
                self.regs.isr = RtcIsr { alrawf: false, ..isr };
            }
            Alarm::AlarmB => {
                self.regs.cr = RtcCr { alrbe: false, ..cr };
                self.regs.isr = RtcIsr { alrbwf: true, ..isr };

                self.regs.alrmbr = encoded;

                self.regs.cr = RtcCr { alrbe: true, ..cr };
                self.regs.isr = RtcIsr { alrbwf: false, ..isr };
            }
        }
        self.end_edit(false);

        let fired = self.check_interrupt(exti, Event::from(alarm), true);
        let _unused = fired;
    }

    /// Program the EXTI line an event signals on: rising-edge sensitivity
    /// and the interrupt mask, both on or both off.
    fn exti_line_config(exti: &mut EXTI, event: &Event, on: bool)
        ensures
            *final(exti) == (match *event {
                Event::WakeupTimer => EXTI {
                    rtsr1: ExtiRtsr1 { tr20: on, ..old(exti).rtsr1 },
                    imr1: ExtiImr1 { mr20: on, ..old(exti).imr1 },
                    ..*old(exti)
                },
                Event::AlarmA => EXTI {
                    rtsr1: ExtiRtsr1 { tr18: on, ..old(exti).rtsr1 },
                    imr1: ExtiImr1 { mr18: on, ..old(exti).imr1 },
                    ..*old(exti)
                },
                Event::AlarmB => EXTI {
                    rtsr1: ExtiRtsr1 { tr18: on, ..old(exti).rtsr1 },
                    imr1: ExtiImr1 { mr18: on, ..old(exti).imr1 },
                    ..*old(exti)
                },
                Event::Timestamp => EXTI {
                    rtsr1: ExtiRtsr1 { tr19: on, ..old(exti).rtsr1 },
                    imr1: ExtiImr1 { mr19: on, ..old(exti).imr1 },
                    ..*old(exti)
                },
            }),
    {
        let rtsr1 = exti.rtsr1;
        let imr1 = exti.imr1;
        match event {
            Event::WakeupTimer => {
                exti.rtsr1 = ExtiRtsr1 { tr20: on, ..rtsr1 };
                exti.imr1 = ExtiImr1 { mr20: on, ..imr1 };
            }
            Event::AlarmA => {
                // The alarm events share EXTI line 18.
                exti.rtsr1 = ExtiRtsr1 { tr18: on, ..rtsr1 };
                exti.imr1 = ExtiImr1 { mr18: on, ..imr1 };
            }
            Event::AlarmB => {
                exti.rtsr1 = ExtiRtsr1 { tr18: on, ..rtsr1 };
                exti.imr1 = ExtiImr1 { mr18: on, ..imr1 };
            }
            Event::Timestamp => {
                exti.rtsr1 = ExtiRtsr1 { tr19: on, ..rtsr1 };
                exti.imr1 = ExtiImr1 { mr19: on, ..imr1 };
            }
        }
    }

    /// Starts listening for an interrupt event: unmask and make
    /// rising-edge-sensitive the matching EXTI line, and enable the
    /// interrupt at the RTC.
    #[verifier::rlimit(100)]
    pub fn listen(&mut self, exti: &mut EXTI, event: Event)
        ensures
            final(self).config == old(self).config,
            final(self).regs == (RTC {
                cr: (match event {
                    Event::WakeupTimer => RtcCr { wutie: true, ..old(self).regs.cr },
                    Event::AlarmA => RtcCr { alraie: true, ..old(self).regs.cr },
                    Event::AlarmB => RtcCr { alrbie: true, ..old(self).regs.cr },
                    Event::Timestamp => RtcCr { tsie: true, ..old(self).regs.cr },
                }),
                wpr: 0xFF,
                ..old(self).regs
            }),
            *final(exti) == (match event {
                Event::WakeupTimer => EXTI {
                    rtsr1: ExtiRtsr1 { tr20: true, ..old(exti).rtsr1 },
                    imr1: ExtiImr1 { mr20: true, ..old(exti).imr1 },
                    ..*old(exti)
                },
                Event::AlarmA => EXTI {
                    rtsr1: ExtiRtsr1 { tr18: true, ..old(exti).rtsr1 },
                    imr1: ExtiImr1 { mr18: true, ..old(exti).imr1 },
                    ..*old(exti)
                },
                Event::AlarmB => EXTI {
                    rtsr1: ExtiRtsr1 { tr18: true, ..old(exti).rtsr1 },
                    imr1: ExtiImr1 { mr18: true, ..old(exti).imr1 },
                    ..*old(exti)
                },
                Event::Timestamp => EXTI {
                    rtsr1: ExtiRtsr1 { tr19: true, ..old(exti).rtsr1 },
                    imr1: ExtiImr1 { mr19: true, ..old(exti).imr1 },
                    ..*old(exti)
                },
            }),
    {
        self.begin_edit(false);
        Self::exti_line_config(exti, &event, true);
        let cr = self.regs.cr;
        self.regs.cr = match event {
            Event::WakeupTimer => RtcCr { wutie: true, ..cr },
            Event::AlarmA => RtcCr { alraie: true, ..cr },
            Event::AlarmB => RtcCr { alrbie: true, ..cr },
            Event::Timestamp => RtcCr { tsie: true, ..cr },
        };
        self.end_edit(false);
    }

    /// Stops listening for an interrupt event: mask the matching EXTI line
    /// and disable the interrupt at the RTC.
    #[verifier::rlimit(100)]
    pub fn unlisten(&mut self, exti: &mut EXTI, event: Event)
        ensures
            final(self).config == old(self).config,
            final(self).regs == (RTC {
                cr: (match event {
                    Event::WakeupTimer => RtcCr { wutie: false, ..old(self).regs.cr },
                    Event::AlarmA => RtcCr { alraie: false, ..old(self).regs.cr },
                    Event::AlarmB => RtcCr { alrbie: false, ..old(self).regs.cr },
                    Event::Timestamp => RtcCr { tsie: false, ..old(self).regs.cr },
                }),
                wpr: 0xFF,
                ..old(self).regs
            }),
            *final(exti) == (match event {
                Event::WakeupTimer => EXTI {
                    rtsr1: ExtiRtsr1 { tr20: false, ..old(exti).rtsr1 },
                    imr1: ExtiImr1 { mr20: false, ..old(exti).imr1 },
                    ..*old(exti)
                },
                Event::AlarmA => EXTI {
                    rtsr1: ExtiRtsr1 { tr18: false, ..old(exti).rtsr1 },
                    imr1: ExtiImr1 { mr18: false, ..old(exti).imr1 },
                    ..*old(exti)
                },
                Event::AlarmB => EXTI {
                    rtsr1: ExtiRtsr1 { tr18: false, ..old(exti).rtsr1 },
                    imr1: ExtiImr1 { mr18: false, ..old(exti).imr1 },
                    ..*old(exti)
                },
                Event::Timestamp => EXTI {
                    rtsr1: ExtiRtsr1 { tr19: false, ..old(exti).rtsr1 },
                    imr1: ExtiImr1 { mr19: false, ..old(exti).imr1 },
                    ..*old(exti)
                },
            }),
    {
        self.begin_edit(false);
        Self::exti_line_config(exti, &event, false);
        let cr = self.regs.cr;
        self.regs.cr = match event {
            Event::WakeupTimer => RtcCr { wutie: false, ..cr },
            Event::AlarmA => RtcCr { alraie: false, ..cr },
            Event::AlarmB => RtcCr { alrbie: false, ..cr },
            Event::Timestamp => RtcCr { tsie: false, ..cr },
        };
        self.end_edit(false);
    }

    /// Checks for an interrupt event, optionally clearing its flag and the
    /// matching EXTI pending bit.
    #[verifier::rlimit(50)]
    pub fn check_interrupt(&mut self, exti: &mut EXTI, event: Event, clear: bool) -> (r: bool)
        ensures
            final(self).config == old(self).config,
            r == (match event {
                Event::WakeupTimer => old(self).regs.isr.wutf,
                Event::AlarmA => old(self).regs.isr.alraf,
                Event::AlarmB => old(self).regs.isr.alrbf,
                Event::Timestamp => old(self).regs.isr.tsf,
            }),
            !clear ==> *final(self) == *old(self) && *final(exti) == *old(exti),
            clear ==> final(self).regs == (RTC {
                isr: (match event {
                    Event::WakeupTimer => RtcIsr { wutf: false, ..old(self).regs.isr },
                    Event::AlarmA => RtcIsr { alraf: false, ..old(self).regs.isr },
                    Event::AlarmB => RtcIsr { alrbf: false, ..old(self).regs.isr },
                    Event::Timestamp => RtcIsr { tsf: false, ..old(self).regs.isr },
                }),
                wpr: 0xFF,
                ..old(self).regs
            }) && *final(exti) == (EXTI {
                pr1: (match event {
                    Event::WakeupTimer => ExtiPr1 { pr20: false, ..old(exti).pr1 },
                    Event::AlarmA => ExtiPr1 { pr18: false, ..old(exti).pr1 },
                    Event::AlarmB => ExtiPr1 { pr18: false, ..old(exti).pr1 },
                    Event::Timestamp => ExtiPr1 { pr19: false, ..old(exti).pr1 },
                }),
                ..*old(exti)
            }),
    {
        let result = match event {
            Event::WakeupTimer => self.regs.isr.wutf,
            Event::AlarmA => self.regs.isr.alraf,
            Event::AlarmB => self.regs.isr.alrbf,
            Event::Timestamp => self.regs.isr.tsf,
        };
        if clear {
            self.begin_edit(false);
            match event {
                Event::WakeupTimer => {
                    let mut isr = self.regs.isr;
                    isr.wutf = false;
                    self.regs.isr = isr;
                    // Clear the pending bit of EXTI line 20.
                    let mut pr1 = exti.pr1;
                    pr1.pr20 = false;
                    exti.pr1 = pr1;
                }
                Event::AlarmA => {
                    let mut isr = self.regs.isr;
                    isr.alraf = false;
                    self.regs.isr = isr;
                    let mut pr1 = exti.pr1;
                    pr1.pr18 = false;
                    exti.pr1 = pr1;
                }
                Event::AlarmB => {
                    let mut isr = self.regs.isr;
                    isr.alrbf = false;
                    self.regs.isr = isr;
                    let mut pr1 = exti.pr1;
                    pr1.pr18 = false;
                    exti.pr1 = pr1;
                }
                Event::Timestamp => {
                    let mut isr = self.regs.isr;
                    isr.tsf = false;
                    self.regs.isr = isr;
                    let mut pr1 = exti.pr1;
                    pr1.pr19 = false;
                    exti.pr1 = pr1;
                }
            }
            self.end_edit(false);
        }

        result
    }

    /// Access the wakeup timer. The handle's operations take the `Rtc` they
    /// drive as their first argument.
    pub fn wakeup_timer(&mut self) -> (r: WakeupTimer)
        ensures
            *final(self) == *old(self),
            r == (WakeupTimer {}),
    {
        WakeupTimer {}
    }

    /// Clears the wakeup flag. Must be cleared manually after every RTC
    /// wakeup. The timer is disabled around the clear and re-enabled after.
    pub fn clear_wakeup_flag(&mut self)
        ensures
            final(self).config == old(self).config,
            final(self).regs == (RTC {
                cr: RtcCr { wute: true, ..old(self).regs.cr },
                isr: RtcIsr { wutf: false, wutwf: false, ..old(self).regs.isr },
                wpr: 0xFF,
                ..old(self).regs
            }),
    {
        self.begin_edit(false);
        let mut cr = self.regs.cr;
        cr.wute = false;
        self.regs.cr = cr;
        let mut isr = self.regs.isr;
        isr.wutwf = true;
        isr.wutf = false;
        self.regs.isr = isr;
        let mut cr = self.regs.cr;
        cr.wute = true;
        self.regs.cr = cr;
        let mut isr = self.regs.isr;
        isr.wutwf = false;
        self.regs.isr = isr;
        self.end_edit(false);
    }
}

/// Returned by a wakeup-timer wait that found no fired timer yet.
#[derive(Clone, Copy, PartialEq, Eq, Structural, Debug)]
pub struct WouldBlock {}

/// The RTC wakeup timer.
///
/// This timer can be used in two ways:
/// 1. Continually call `wait` until it returns `Ok(())`.
/// 2. Set up the RTC interrupt.
///
/// If you use an interrupt, you should still call `wait` once after the
/// interrupt fired. This should return `Ok(())` immediately, and resets the
/// timer flag; without it the interrupt will not fire again after a sleep.
///
/// You don't need to call `wait` if you call `cancel`, as that also resets
/// the flag, and so does restarting the timer with `start`.
///
/// The handle is empty: each operation takes the [`Rtc`] it drives as its
/// first argument, since the registers belong to the caller.
#[derive(Clone, Copy, PartialEq, Eq, Structural, Debug)]
pub struct WakeupTimer {}

impl WakeupTimer {
    /// Starts the wakeup timer on the one-second clock.
    ///
    /// `delay` is in seconds; up to 17 bits of delay are supported, giving a
    /// range of over 36 hours. It must lie in `1 ..= 2^17`.
    #[verifier::rlimit(100)]
    pub fn start(rtc: &mut Rtc, delay: u32)
        requires
            1 <= delay <= 0x2_0000,
        ensures
            final(rtc).config == old(rtc).config,
            final(rtc).regs == (RTC {
                wutr: RtcWutr { wut: (((delay - 1) as u32) & 0xFFFF) as u16 },
                cr: RtcCr {
                    wute: true,
                    wcksel: if ((delay - 1) as u32) & 0x1_0000 != 0 {
                        0b110
                    } else {
                        0b100
                    },
                    ..old(rtc).regs.cr
                },
                isr: RtcIsr { wutwf: false, wutf: false, ..old(rtc).regs.isr },
                wpr: 0xFF,
                ..old(rtc).regs
            }),
    {
        let delay = delay - 1;

        Self::cancel(rtc);

        rtc.begin_edit(false);

        // Write the lower 16 bits of the delay; the 17th bit is carried by
        // the wakeup clock selection below.
        proof {
            assert(delay & 0xFFFF <= 0xFFFF) by (bit_vector);
        }
        rtc.regs.wutr = RtcWutr { wut: (delay & 0xFFFF) as u16 };

        let mut cr = rtc.regs.cr;
        if delay & 0x1_0000 != 0 {
            cr.wcksel = 0b110;
        } else {
            cr.wcksel = 0b100;
        }
        // Enable the wakeup timer.
        cr.wute = true;
        rtc.regs.cr = cr;

        // The running timer revokes write access; on hardware this is where
        // WUTWF is polled clear, against a racing restart.
        let mut isr = rtc.regs.isr;
        isr.wutwf = false;
        rtc.regs.isr = isr;

        rtc.end_edit(false);
    }

    /// Report whether the wakeup timer has fired, clearing the flag when it
    /// has; otherwise the caller should try again later.
    pub fn wait(rtc: &mut Rtc, exti: &mut EXTI) -> (r: Result<(), WouldBlock>)
        ensures
            final(rtc).config == old(rtc).config,
            (r is Ok) <==> old(rtc).regs.isr.wutf,
            final(rtc).regs == (RTC {
                isr: RtcIsr { wutf: false, ..old(rtc).regs.isr },
                wpr: 0xFF,
                ..old(rtc).regs
            }),
            *final(exti) == (EXTI {
                pr1: ExtiPr1 { pr20: false, ..old(exti).pr1 },
                ..*old(exti)
            }),
    {
        if rtc.check_interrupt(exti, Event::WakeupTimer, true) {
            return Ok(());
        }

        Err(WouldBlock {})
    }

    /// Disable the wakeup timer, and clear its fired flag.
    pub fn cancel(rtc: &mut Rtc)
        ensures
            final(rtc).config == old(rtc).config,
            final(rtc).regs == (RTC {
                cr: RtcCr { wute: false, ..old(rtc).regs.cr },
                isr: RtcIsr { wutwf: true, wutf: false, ..old(rtc).regs.isr },
                wpr: 0xFF,
                ..old(rtc).regs
            }),
    {
        rtc.begin_edit(false);

        // Disable the wakeup timer, and wait for write access to its
        // registers (the hardware raises WUTWF once the timer stops), then
        // clear the fired flag.
        let mut cr = rtc.regs.cr;
        cr.wute = false;
        rtc.regs.cr = cr;
        let mut isr = rtc.regs.isr;
        isr.wutwf = true;
        isr.wutf = false;
        rtc.regs.isr = isr;

        rtc.end_edit(false);
    }
}

/// Raw set time.
/// Expects init mode enabled and write protection disabled.
fn set_time_raw(regs: &mut RTC, time: Time)
    requires
        time.spec_valid(),
    ensures
        *final(regs) == (RTC {
            tr: spec_tr_encoded(time),
            cr: RtcCr { bkp: time.daylight_savings, ..old(regs).cr },
            ..*old(regs)
        }),
{
    let (ht, hu) = bcd_digits(time.hours as u8);
    let (mnt, mnu) = bcd_digits(time.minutes as u8);
    let (st, su) = bcd_digits(time.seconds as u8);

    regs.tr = RtcTr { pm: false, ht, hu, mnt, mnu, st, su };

    let mut cr = regs.cr;
    cr.bkp = time.daylight_savings;
    regs.cr = cr;
}

/// Raw set date.
/// Expects init mode enabled and write protection disabled.
fn set_date_raw(regs: &mut RTC, date: Date)
    requires
        date.spec_valid(),
    ensures
        *final(regs) == (RTC { dr: spec_dr_encoded(date), ..*old(regs) }),
{
    let (dt, du) = bcd_digits(date.date as u8);
    let (mt, mu) = bcd_digits(date.month as u8);
    let yr = date.year as u16;
    let yr_offset = (yr - 1970) as u8;
    let (yt, yu) = bcd_digits(yr_offset);

    regs.dr = RtcDr { yt, yu, wdu: date.day as u8, mt: mt > 0, mu, dt, du };
}

/// Split a two-digit value into its decimal digits: tens and units.
fn bcd_digits(byte: u8) -> (r: (u8, u8))
    requires
        byte < 100,
    ensures
        r.0 == byte / 10,
        r.1 == byte % 10,
{
    let (tens, packed) = byte_to_bcd2(byte);
    // The four-bit units register fields keep only the low nibble of the
    // packed byte.
    proof {
        assert(packed & 0x0F == byte % 10) by (bit_vector)
            requires
                packed == (byte / 10) * 16 + byte % 10,
                byte < 100,
        ;
    }
    (tens, packed & 0x0F)
}

/// Split a two-digit value into its tens digit and the byte holding both
/// digits packed as nibbles.
pub fn byte_to_bcd2(byte: u8) -> (r: (u8, u8))
    requires
        byte < 100,
    ensures
        r.0 == byte / 10,
        r.1 == (byte / 10) * 16 + byte % 10,
{
    let mut bcd_high: u8 = 0;
    let mut value = byte;

    while value >= 10
        invariant
            byte == bcd_high * 10 + value,
            byte < 100,
            bcd_high <= 9,
        decreases value,
    {
        bcd_high += 1;
        value -= 10;
    }

    proof {
        assert((bcd_high << 4) | value == bcd_high * 16 + value) by (bit_vector)
            requires
                bcd_high < 10,
                value < 10,
        ;
    }
    (bcd_high, (bcd_high << 4) | value)
}

/// Decode a BCD tens/units pair into its decimal value. The units byte may
/// carry the tens digit in its high nibble (as [`byte_to_bcd2`] hands it
/// back) or hold the units alone (as a four-bit register field does).
pub fn bcd2_to_byte(bcd: (u8, u8)) -> (r: u8)
    requires
        bcd.0 < 10,
        bcd.1 < 16 || bcd.1 >> 4 == bcd.0,
    ensures
        r == bcd.0 * 10 + (bcd.1 & 0xF),
        bcd.1 < 16 ==> r == bcd.0 * 10 + bcd.1,
{
    let t = bcd.0;
    let u = bcd.1;
    proof {
        assert((u < 16 || u >> 4 == t) && t < 10 ==> (((u | (t << 4)) & 0xF0) >> 4) * 10 + ((u | (
        t << 4)) & 0x0F) == t * 10 + (u & 0xF)) by (bit_vector);
        assert(u < 16 ==> u & 0xF == u) by (bit_vector);
        assert((((u | (t << 4)) & 0xF0) >> 4) <= 15) by (bit_vector);
        assert(((u | (t << 4)) & 0x0F) <= 15) by (bit_vector);
    }
    let value = u | (t << 4);
    let tmp = ((value & 0xF0) >> 4) * 10;
    tmp + (value & 0x0F)
}

} // verus!
