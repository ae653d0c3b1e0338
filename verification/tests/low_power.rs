use stm32l4_hal::low_power::{
    low_power_run, return_from_low_power_run, shutdown, sleep_now, standby, stop, InputSrc,
    PllSrc, StopMode,
};
use stm32l4_hal::pac::{PWR, RCC, SCB};

#[test]
fn low_power_run_round_trip() {
    let mut pwr = PWR::reset();
    low_power_run(&mut pwr);
    assert!(pwr.cr1.lpr);

    pwr.sr2.reglpf = true;
    return_from_low_power_run(&mut pwr);
    assert!(!pwr.cr1.lpr);
    assert!(!pwr.sr2.reglpf);
}

#[test]
fn sleep_now_keeps_ordinary_sleep_depth() {
    let mut scb = SCB::reset();
    scb.sleepdeep = true;
    sleep_now(&mut scb);
    assert!(!scb.sleepdeep);
}

#[test]
fn stop_selects_depth_and_restores_hse() {
    let mut scb = SCB::reset();
    let mut pwr = PWR::reset();
    let mut rcc = RCC::reset();

    stop(&mut scb, &mut pwr, &mut rcc, StopMode::Two, InputSrc::Hse);
    assert!(scb.sleepdeep);
    assert_eq!(pwr.cr1.lpms, 0b010);
    // On wake the HSE is re-enabled and re-selected.
    assert!(rcc.cr.hseon);
    assert!(rcc.cr.hserdy);
    assert_eq!(rcc.cfgr.sw, 0b01);
}

#[test]
fn stop_restores_pll_chain() {
    let mut scb = SCB::reset();
    let mut pwr = PWR::reset();
    let mut rcc = RCC::reset();

    stop(&mut scb, &mut pwr, &mut rcc, StopMode::Zero, InputSrc::Pll(PllSrc::Hse));
    assert_eq!(pwr.cr1.lpms, 0b000);
    assert!(rcc.cr.hseon);
    assert!(rcc.cr.pllon);
    assert!(rcc.cr.pllrdy);
    assert_eq!(rcc.cfgr.sw, 0b10);
}

#[test]
fn stop_with_internal_oscillator_leaves_clock_registers() {
    let mut scb = SCB::reset();
    let mut pwr = PWR::reset();
    let mut rcc = RCC::reset();
    let before = rcc;

    stop(&mut scb, &mut pwr, &mut rcc, StopMode::One, InputSrc::Hsi16);
    assert_eq!(pwr.cr1.lpms, 0b001);
    // The hardware itself wakes to the internal oscillator.
    assert_eq!(rcc, before);
}

#[test]
fn standby_clears_wakeup_flags() {
    let mut scb = SCB::reset();
    let mut pwr = PWR::reset();
    pwr.scr = 0xDEAD;
    let mut rcc = RCC::reset();

    standby(&mut scb, &mut pwr, &mut rcc, InputSrc::Msi);
    assert!(scb.sleepdeep);
    assert_eq!(pwr.cr1.lpms, 0b011);
    assert_eq!(pwr.scr, 0);
}

#[test]
fn shutdown_uses_deepest_mode() {
    let mut scb = SCB::reset();
    let mut pwr = PWR::reset();
    let mut rcc = RCC::reset();

    shutdown(&mut scb, &mut pwr, &mut rcc, InputSrc::Hse);
    assert!(scb.sleepdeep);
    assert_eq!(pwr.cr1.lpms, 0b100);
    assert_eq!(pwr.scr, 0);
    assert_eq!(rcc.cfgr.sw, 0b01);
}

#[test]
fn input_src_bits() {
    assert_eq!(InputSrc::Msi.bits(), 0b00);
    assert_eq!(InputSrc::Hsi16.bits(), 0b00);
    assert_eq!(InputSrc::Hse.bits(), 0b01);
    assert_eq!(InputSrc::Pll(PllSrc::Msi).bits(), 0b10);
}
