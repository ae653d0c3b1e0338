use stm32l4_hal::pac::{APB1R1, BDCR, EXTI, PWR, RCC, RTC};
use stm32l4_hal::rtc::{encode_wakeup, Rtc, RtcClockSource, RtcConfig, WakeupEncoding};

fn lse_rtc() -> (Rtc, EXTI) {
    let mut apb1r1 = APB1R1::reset();
    let mut bdcr = BDCR::reset();
    let mut pwr = PWR::reset();
    let mut rcc = RCC::reset();
    let config = RtcConfig::default().clock_source(RtcClockSource::Lse);
    let rtc = Rtc::new(RTC::reset(), &mut apb1r1, &mut bdcr, &mut pwr, &mut rcc, config);
    (rtc, EXTI::reset())
}

#[test]
fn one_second_lse_uses_finest_band() {
    // One second is below 32 s, in the divide-by-two band:
    // round(1.0 * 32768 / 2) - 1 = 16383.
    assert_eq!(
        encode_wakeup(1_000_000_000, RtcClockSource::Lse),
        Ok(WakeupEncoding { division_selector: 0b011, reload_value: 16383 })
    );
}

#[test]
fn forty_seconds_uses_one_second_clock() {
    assert_eq!(
        encode_wakeup(40_000_000_000, RtcClockSource::Lse),
        Ok(WakeupEncoding { division_selector: 0b100, reload_value: 40 })
    );
}

#[test]
fn below_minimum_fails() {
    // 50 µs is below the 122.07 µs minimum.
    assert!(encode_wakeup(50_000, RtcClockSource::Lse).is_err());
}

#[test]
fn above_maximum_fails() {
    // 200 000 s is beyond the 131 072 s (36 hour) ceiling.
    assert!(encode_wakeup(200_000_000_000_000, RtcClockSource::Lse).is_err());
}

#[test]
fn domain_boundaries() {
    // The smallest representable interval.
    assert_eq!(
        encode_wakeup(122_070, RtcClockSource::Lse),
        Ok(WakeupEncoding { division_selector: 0b011, reload_value: 1 })
    );
    // One below it.
    assert!(encode_wakeup(122_069, RtcClockSource::Lse).is_err());
    // The largest representable interval: 131 071 whole seconds.
    assert_eq!(
        encode_wakeup(131_071_999_999_999, RtcClockSource::Lse),
        Ok(WakeupEncoding { division_selector: 0b110, reload_value: 65_534 })
    );
    // The 36-hour ceiling itself is out.
    assert!(encode_wakeup(131_072_000_000_000, RtcClockSource::Lse).is_err());
}

#[test]
fn fine_band_boundaries() {
    // Just under four seconds stays in the divide-by-two band.
    let just_under_4s = encode_wakeup(3_999_999_999, RtcClockSource::Lse).unwrap();
    assert_eq!(just_under_4s.division_selector, 0b011);
    // Four seconds moves to divide-by-four:
    // round(4.0 * 32768 / 4) - 1 = 32767.
    assert_eq!(
        encode_wakeup(4_000_000_000, RtcClockSource::Lse),
        Ok(WakeupEncoding { division_selector: 0b010, reload_value: 32_767 })
    );
    // Eight seconds: divide by eight.
    assert_eq!(
        encode_wakeup(8_000_000_000, RtcClockSource::Lse),
        Ok(WakeupEncoding { division_selector: 0b001, reload_value: 32_767 })
    );
    // Sixteen seconds: divide by sixteen.
    assert_eq!(
        encode_wakeup(16_000_000_000, RtcClockSource::Lse),
        Ok(WakeupEncoding { division_selector: 0b000, reload_value: 32_767 })
    );
    // Thirty-two seconds leaves the fine regime for the one-second clock.
    assert_eq!(
        encode_wakeup(32_000_000_000, RtcClockSource::Lse),
        Ok(WakeupEncoding { division_selector: 0b100, reload_value: 32 })
    );
}

#[test]
fn one_second_resolution_regimes() {
    // 40.7 s truncates to 40 on the one-second clock.
    assert_eq!(
        encode_wakeup(40_700_000_000, RtcClockSource::Lse),
        Ok(WakeupEncoding { division_selector: 0b100, reload_value: 40 })
    );
    // The top of the 18-hour regime.
    assert_eq!(
        encode_wakeup(65_535_999_999_999, RtcClockSource::Lse),
        Ok(WakeupEncoding { division_selector: 0b100, reload_value: 65_535 })
    );
    // The bottom of the extended regime: the counter extension covers the
    // whole value, and the reload saturates at zero.
    assert_eq!(
        encode_wakeup(65_536_000_000_000, RtcClockSource::Lse),
        Ok(WakeupEncoding { division_selector: 0b110, reload_value: 0 })
    );
    // 70 000 s: 70 000 - 65 537 = 4 463.
    assert_eq!(
        encode_wakeup(70_000_000_000_000, RtcClockSource::Lse),
        Ok(WakeupEncoding { division_selector: 0b110, reload_value: 4_463 })
    );
}

#[test]
fn source_frequency_changes_fine_reload() {
    // One second on the LSI's 32 kHz: round(1.0 * 32000 / 2) - 1 = 15999.
    assert_eq!(
        encode_wakeup(1_000_000_000, RtcClockSource::Lsi),
        Ok(WakeupEncoding { division_selector: 0b011, reload_value: 15_999 })
    );
    // One second on the divided HSE's 250 kHz asks for 124 999 counts,
    // which saturates the sixteen-bit register.
    assert_eq!(
        encode_wakeup(1_000_000_000, RtcClockSource::Hse),
        Ok(WakeupEncoding { division_selector: 0b011, reload_value: 65_535 })
    );
}

#[test]
fn hse_reload_saturates_the_register() {
    // Just under 32 s of 250 kHz ticks over sixteen still needs ~500 000
    // counts; the sixteen-bit register holds its ceiling.
    assert_eq!(
        encode_wakeup(31_999_999_999, RtcClockSource::Hse),
        Ok(WakeupEncoding { division_selector: 0b000, reload_value: 65_535 })
    );
}

#[test]
fn rounding_is_to_nearest() {
    // 100 030.5 µs * 32768 Hz / 2 = 1 638 899.7… ticks / 1e9; pick a value
    // whose product lands just below a half: 122 100 ns * 32768 / 2
    // = 2000.5 ticks exactly, which rounds up to 2001 -> reload 2000.
    // 2000.5 = 122100 * 32768 / 2e9? 122100*32768 = 4 001 366 016…
    let enc = encode_wakeup(122_100, RtcClockSource::Lse).unwrap();
    // 122100 ns * 32768 / 2e9 = 2.0006 ticks: rounds to 2, reload 1.
    assert_eq!(enc.reload_value, 1);

    // 152 587 ns * 32768 / 2e9 = 2.50 ticks: rounds up to 3, reload 2.
    let enc = encode_wakeup(152_588, RtcClockSource::Lse).unwrap();
    assert_eq!(enc.reload_value, 2);
}

#[test]
fn set_wakeup_programs_registers_and_exti() {
    let (mut rtc, mut exti) = lse_rtc();
    rtc.set_wakeup(&mut exti, 1_000_000_000);

    assert_eq!(rtc.regs.wutr.wut, 16383);
    assert_eq!(rtc.regs.cr.wcksel, 0b011);
    assert!(rtc.regs.cr.wute);
    assert!(rtc.regs.cr.wutie);
    assert!(!rtc.regs.isr.wutf);
    assert_eq!(rtc.regs.wpr, 0xFF);

    assert!(exti.imr1.mr20);
    assert!(exti.rtsr1.tr20);
    assert!(!exti.ftsr1.tr20);
}

#[test]
fn set_wakeup_interval_reprograms_a_running_timer() {
    let (mut rtc, mut exti) = lse_rtc();
    rtc.set_wakeup(&mut exti, 1_000_000_000);
    rtc.set_wakeup_interval(40_000_000_000);

    assert_eq!(rtc.regs.wutr.wut, 40);
    assert_eq!(rtc.regs.cr.wcksel, 0b100);
    assert!(rtc.regs.cr.wute);
}

#[test]
fn enable_and_disable_wakeup() {
    let (mut rtc, _) = lse_rtc();
    rtc.enable_wakeup();
    assert!(rtc.regs.cr.wute);
    assert!(!rtc.regs.isr.wutwf);
    rtc.disable_wakeup();
    assert!(!rtc.regs.cr.wute);
    assert!(rtc.regs.isr.wutwf);
}
