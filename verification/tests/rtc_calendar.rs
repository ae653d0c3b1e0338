use stm32l4_hal::datetime::{Date, Time};
use stm32l4_hal::pac::{APB1R1, BDCR, EXTI, PWR, RCC, RTC};
use stm32l4_hal::rtc::{
    bcd2_to_byte, byte_to_bcd2, Alarm, Event, Rtc, RtcClockSource, RtcConfig, WakeupTimer,
};

fn fresh_rtc(config: RtcConfig) -> Rtc {
    let mut apb1r1 = APB1R1::reset();
    let mut bdcr = BDCR::reset();
    let mut pwr = PWR::reset();
    let mut rcc = RCC::reset();
    Rtc::new(RTC::reset(), &mut apb1r1, &mut bdcr, &mut pwr, &mut rcc, config)
}

#[test]
fn bcd_encode_packs_digits() {
    assert_eq!(byte_to_bcd2(59), (5, 0x59));
    assert_eq!(byte_to_bcd2(0), (0, 0x00));
    assert_eq!(byte_to_bcd2(99), (9, 0x99));
    assert_eq!(byte_to_bcd2(7), (0, 0x07));
}

#[test]
fn bcd_decode_reads_either_shape() {
    // The units byte may hold the packed pair, or the units alone.
    assert_eq!(bcd2_to_byte((5, 0x59)), 59);
    assert_eq!(bcd2_to_byte((5, 9)), 59);
    assert_eq!(bcd2_to_byte((0, 7)), 7);
    assert_eq!(bcd2_to_byte((9, 0x99)), 99);
}

#[test]
fn bcd_round_trips_every_two_digit_value() {
    for value in 0u8..100 {
        assert_eq!(bcd2_to_byte(byte_to_bcd2(value)), value);
    }
}

#[test]
fn new_configures_clock_source_and_prescalers() {
    let mut apb1r1 = APB1R1::reset();
    let mut bdcr = BDCR::reset();
    let mut pwr = PWR::reset();
    let mut rcc = RCC::reset();
    let config = RtcConfig::default();
    let rtc = Rtc::new(RTC::reset(), &mut apb1r1, &mut bdcr, &mut pwr, &mut rcc, config);

    assert_eq!(rtc.get_config(), config);
    assert_eq!(rtc.regs.prer.prediv_a, 127);
    assert_eq!(rtc.regs.prer.prediv_s, 255);
    assert_eq!(rtc.regs.wpr, 0xFF);
    assert!(!rtc.regs.cr.fmt);

    // The buses and backup domain were opened, and the LSI enabled for the
    // default configuration.
    assert!(apb1r1.pwren);
    assert!(apb1r1.rtcapben);
    assert!(pwr.cr1.dbp);
    assert!(rcc.csr.lsion);
    assert_eq!(bdcr.rtcsel, 0b10);
    assert!(bdcr.rtcen);
    assert!(!bdcr.lseon);
}

#[test]
fn new_with_lse_enables_the_oscillator() {
    let mut apb1r1 = APB1R1::reset();
    let mut bdcr = BDCR::reset();
    let mut pwr = PWR::reset();
    let mut rcc = RCC::reset();
    let config = RtcConfig::default().clock_source(RtcClockSource::Lse).bypass_lse_output(true);
    let _rtc = Rtc::new(RTC::reset(), &mut apb1r1, &mut bdcr, &mut pwr, &mut rcc, config);

    assert!(bdcr.lseon);
    assert!(bdcr.lserdy);
    assert!(bdcr.lsebyp);
    assert_eq!(bdcr.rtcsel, 0b01);
    assert!(!rcc.csr.lsion);
}

#[test]
fn config_builders_compose() {
    let config = RtcConfig::default()
        .clock_source(RtcClockSource::Hse)
        .async_prescaler(99)
        .sync_prescaler(1999)
        .bypass_lse_output(true);
    assert_eq!(config.clock_source, RtcClockSource::Hse);
    assert_eq!(config.async_prescaler, 99);
    assert_eq!(config.sync_prescaler, 1999);
    assert!(config.bypass_lse_output);
}

#[test]
fn date_time_round_trip() {
    let mut rtc = fresh_rtc(RtcConfig::default());
    let date = Date::new(2, 14, 7, 2024);
    let time = Time::new(13, 45, 30, 0, false);
    rtc.set_date_time(date, time);

    let (read_date, read_time) = rtc.get_date_time();
    assert_eq!(read_date, date);
    assert_eq!(read_time.hours, 13);
    assert_eq!(read_time.minutes, 45);
    assert_eq!(read_time.seconds, 30);
    assert!(!read_time.daylight_savings);
    // With the sub-second counter at its fresh zero, the 255-step prescaler
    // reads as 996 030 µs: 1 000 000 / 256 * 255.
    assert_eq!(read_time.micros, 996_030);
}

#[test]
fn set_date_time_encodes_bcd_fields() {
    let mut rtc = fresh_rtc(RtcConfig::default());
    rtc.set_date_time(Date::new(3, 31, 12, 1999), Time::new(23, 59, 58, 0, true));

    assert_eq!(rtc.regs.tr.ht, 2);
    assert_eq!(rtc.regs.tr.hu, 3);
    assert_eq!(rtc.regs.tr.mnt, 5);
    assert_eq!(rtc.regs.tr.mnu, 9);
    assert_eq!(rtc.regs.tr.st, 5);
    assert_eq!(rtc.regs.tr.su, 8);
    assert!(rtc.regs.cr.bkp);

    assert_eq!(rtc.regs.dr.dt, 3);
    assert_eq!(rtc.regs.dr.du, 1);
    assert!(rtc.regs.dr.mt);
    assert_eq!(rtc.regs.dr.mu, 2);
    // 1999 is 29 years past the 1970 epoch.
    assert_eq!(rtc.regs.dr.yt, 2);
    assert_eq!(rtc.regs.dr.yu, 9);
    assert_eq!(rtc.regs.dr.wdu, 3);
}

#[test]
fn set_time_and_set_date_separately() {
    let mut rtc = fresh_rtc(RtcConfig::default());
    rtc.set_time(Time::new(6, 30, 0, 0, false));
    rtc.set_date(Date::new(1, 1, 1, 1970));
    let (date, time) = rtc.get_date_time();
    assert_eq!(time.hours, 6);
    assert_eq!(time.minutes, 30);
    assert_eq!(date.year, 1970);
    assert_eq!(date.month, 1);
    assert_eq!(date.date, 1);
}

#[test]
fn hour_format_flag() {
    let mut rtc = fresh_rtc(RtcConfig::default());
    assert!(!rtc.is_24h_fmt());
    rtc.set_24h_fmt();
    assert!(rtc.is_24h_fmt());
    rtc.set_12h_fmt();
    assert!(!rtc.is_24h_fmt());
}

#[test]
fn set_alarm_programs_and_enables_alarm_a() {
    let mut rtc = fresh_rtc(RtcConfig::default());
    let mut exti = EXTI::reset();
    rtc.set_alarm(&mut exti, Alarm::AlarmA, Date::new(2, 14, 7, 2024), Time::new(13, 45, 30, 0, false));

    assert_eq!(rtc.regs.alrmar.dt, 1);
    assert_eq!(rtc.regs.alrmar.du, 4);
    assert_eq!(rtc.regs.alrmar.ht, 1);
    assert_eq!(rtc.regs.alrmar.hu, 3);
    assert_eq!(rtc.regs.alrmar.mnt, 4);
    assert_eq!(rtc.regs.alrmar.mnu, 5);
    assert_eq!(rtc.regs.alrmar.st, 3);
    assert_eq!(rtc.regs.alrmar.su, 0);
    assert!(!rtc.regs.alrmar.pm);
    assert!(!rtc.regs.alrmar.wdsel);
    assert!(rtc.regs.cr.alrae);
    assert!(!rtc.regs.isr.alraf);
    // Alarm B untouched.
    assert!(!rtc.regs.cr.alrbe);
    assert_eq!(rtc.regs.alrmbr, RTC::reset().alrmbr);
}

#[test]
fn set_alarm_b_uses_its_own_registers() {
    let mut rtc = fresh_rtc(RtcConfig::default());
    let mut exti = EXTI::reset();
    rtc.set_alarm(&mut exti, Alarm::AlarmB, Date::new(1, 1, 1, 1970), Time::new(0, 0, 5, 0, false));
    assert!(rtc.regs.cr.alrbe);
    assert_eq!(rtc.regs.alrmbr.su, 5);
    assert!(!rtc.regs.cr.alrae);
}

#[test]
fn listen_and_unlisten_wakeup_event() {
    let mut rtc = fresh_rtc(RtcConfig::default());
    let mut exti = EXTI::reset();

    rtc.listen(&mut exti, Event::WakeupTimer);
    assert!(rtc.regs.cr.wutie);
    assert!(exti.imr1.mr20);
    assert!(exti.rtsr1.tr20);

    rtc.unlisten(&mut exti, Event::WakeupTimer);
    assert!(!rtc.regs.cr.wutie);
    assert!(!exti.imr1.mr20);
    assert!(!exti.rtsr1.tr20);
}

#[test]
fn listen_alarm_and_timestamp_lines() {
    let mut rtc = fresh_rtc(RtcConfig::default());
    let mut exti = EXTI::reset();

    rtc.listen(&mut exti, Event::AlarmA);
    assert!(rtc.regs.cr.alraie);
    assert!(exti.imr1.mr18);

    rtc.listen(&mut exti, Event::Timestamp);
    assert!(rtc.regs.cr.tsie);
    assert!(exti.imr1.mr19);

    rtc.unlisten(&mut exti, Event::AlarmB);
    assert!(!rtc.regs.cr.alrbie);
    assert!(!exti.imr1.mr18);
}

#[test]
fn check_interrupt_reads_and_clears() {
    let mut rtc = fresh_rtc(RtcConfig::default());
    let mut exti = EXTI::reset();

    // Nothing fired yet.
    assert!(!rtc.check_interrupt(&mut exti, Event::WakeupTimer, false));

    // Mark the wakeup timer fired, as the hardware would.
    rtc.regs.isr.wutf = true;
    exti.pr1.pr20 = true;
    assert!(rtc.check_interrupt(&mut exti, Event::WakeupTimer, false));
    // A read without clearing leaves the flag up.
    assert!(rtc.regs.isr.wutf);

    assert!(rtc.check_interrupt(&mut exti, Event::WakeupTimer, true));
    assert!(!rtc.regs.isr.wutf);
    assert!(!exti.pr1.pr20);
}

#[test]
fn clear_wakeup_flag_leaves_timer_running() {
    let mut rtc = fresh_rtc(RtcConfig::default());
    rtc.regs.isr.wutf = true;
    rtc.clear_wakeup_flag();
    assert!(!rtc.regs.isr.wutf);
    assert!(rtc.regs.cr.wute);
}

#[test]
fn wakeup_timer_start_splits_the_seventeenth_bit() {
    let mut rtc = fresh_rtc(RtcConfig::default());
    let _handle = rtc.wakeup_timer();

    // A short delay stays on the plain one-second clock.
    WakeupTimer::start(&mut rtc, 1);
    assert_eq!(rtc.regs.wutr.wut, 0);
    assert_eq!(rtc.regs.cr.wcksel, 0b100);
    assert!(rtc.regs.cr.wute);

    // 90 000 s: the seventeenth bit of 89 999 moves into the selector.
    WakeupTimer::start(&mut rtc, 90_000);
    assert_eq!(rtc.regs.wutr.wut, (89_999u32 & 0xFFFF) as u16);
    assert_eq!(rtc.regs.cr.wcksel, 0b110);
    assert!(rtc.regs.cr.wute);
}

#[test]
fn wakeup_timer_wait_and_cancel() {
    let mut rtc = fresh_rtc(RtcConfig::default());
    let mut exti = EXTI::reset();

    WakeupTimer::start(&mut rtc, 10);
    // Not fired yet: the caller would block.
    assert!(WakeupTimer::wait(&mut rtc, &mut exti).is_err());

    rtc.regs.isr.wutf = true;
    assert!(WakeupTimer::wait(&mut rtc, &mut exti).is_ok());
    assert!(!rtc.regs.isr.wutf);

    WakeupTimer::cancel(&mut rtc);
    assert!(!rtc.regs.cr.wute);
    assert!(rtc.regs.isr.wutwf);
}
