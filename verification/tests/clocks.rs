use stm32l4_hal::clocks::{
    ApbPrescaler, Clk48Src, Clocks, HclkPrescaler, InputSrc, MsiRange, Pllm, Pllr, PllSrc,
    Prediv, Speeds, Validation, validate,
};
use stm32l4_hal::pac::{FLASH, RCC};
use stm32l4_hal::rcc;
use stm32l4_hal::time::Hertz;

/// An HSE-at-8-MHz configuration through the PLL: input divider one, VCO
/// multiplier twenty, output divider two, every bus prescaler one.
fn hse_8mhz_config() -> Clocks {
    Clocks {
        input_src: InputSrc::Pll(PllSrc::Hse(8)),
        pllm: Pllm::Div1,
        pll_vco_mul: 20,
        pll_sai1_mul: 8,
        pll_sai2_mul: 8,
        pllr: Pllr::Div2,
        hclk_prescaler: HclkPrescaler::Div1,
        apb1_prescaler: ApbPrescaler::Div1,
        apb2_prescaler: ApbPrescaler::Div1,
        clk48_src: Clk48Src::PllSai1,
        sai1_enabled: false,
        sai2_enabled: false,
        hse_bypass: false,
        security_system: false,
    }
}

#[test]
fn hse_8mhz_derives_80mhz_everywhere() {
    let config = hse_8mhz_config();
    let speeds = config.calc_speeds();
    assert_eq!(speeds.sysclk, 80_000_000);
    assert_eq!(speeds.hclk, 80_000_000);
    assert_eq!(speeds.systick, 80_000_000);
    assert_eq!(speeds.fclk, 80_000_000);
    assert_eq!(speeds.pclk1, 80_000_000);
    // Prescaler one: no timer-clock doubling.
    assert_eq!(speeds.timer1, 80_000_000);
    assert_eq!(speeds.pclk2, 80_000_000);
    assert_eq!(speeds.timer2, 80_000_000);
    assert!(matches!(config.validate(), Validation::Valid));
}

#[test]
fn apb1_divider_doubles_timer_clock() {
    let mut config = hse_8mhz_config();
    config.apb1_prescaler = ApbPrescaler::Div2;
    let speeds = config.calc_speeds();
    assert_eq!(speeds.pclk1, 40_000_000);
    assert_eq!(speeds.timer1, 80_000_000);
    // APB2 kept its prescaler of one.
    assert_eq!(speeds.pclk2, 80_000_000);
    assert_eq!(speeds.timer2, 80_000_000);
}

#[test]
fn derive_is_deterministic() {
    let config = hse_8mhz_config();
    let first = config.calc_speeds();
    let second = config.calc_speeds();
    assert_eq!(first, second);
}

#[test]
fn vco_multiplier_just_below_range_rejected() {
    let mut config = hse_8mhz_config();
    config.pll_vco_mul = 6;
    assert!(matches!(config.validate(), Validation::NotValid));
}

#[test]
fn vco_multiplier_just_above_range_rejected() {
    let mut config = hse_8mhz_config();
    config.pll_vco_mul = 87;
    assert!(matches!(config.validate(), Validation::NotValid));
}

#[test]
fn aux_multipliers_out_of_range_rejected() {
    let mut config = hse_8mhz_config();
    config.pll_sai1_mul = 6;
    assert!(matches!(config.validate(), Validation::NotValid));
    let mut config = hse_8mhz_config();
    config.pll_sai2_mul = 87;
    assert!(matches!(config.validate(), Validation::NotValid));
}

#[test]
fn vco_multiplier_lower_boundary_accepted() {
    let mut config = hse_8mhz_config();
    config.pll_vco_mul = 7;
    // 8 MHz / 1 * 7 / 2 = 28 MHz: within every limit.
    assert_eq!(config.calc_speeds().sysclk, 28_000_000);
    assert!(matches!(config.validate(), Validation::Valid));
}

#[test]
fn vco_multiplier_upper_boundary_accepted() {
    let mut config = hse_8mhz_config();
    config.input_src = InputSrc::Pll(PllSrc::Hse(1));
    config.pll_vco_mul = 86;
    config.pllr = Pllr::Div8;
    // 1 MHz / 1 * 86 / 8 = 10.75 MHz: within every limit.
    assert_eq!(config.calc_speeds().sysclk, 10_750_000);
    assert!(matches!(config.validate(), Validation::Valid));
}

#[test]
fn over_ceiling_frequency_rejected() {
    let mut config = hse_8mhz_config();
    config.pll_vco_mul = 21;
    // 8 MHz / 1 * 21 / 2 = 84 MHz: over the 80 MHz ceiling.
    assert_eq!(config.calc_speeds().sysclk, 84_000_000);
    assert!(matches!(config.validate(), Validation::NotValid));
}

#[test]
fn disabled_pll_source_gives_zero_sysclk_and_is_rejected() {
    let mut config = hse_8mhz_config();
    config.input_src = InputSrc::Pll(PllSrc::Disabled);
    let speeds = config.calc_speeds();
    assert_eq!(speeds.sysclk, 0);
    assert!(matches!(config.validate(), Validation::NotValid));
}

#[test]
fn msi_range_values_drive_direct_sysclk() {
    let mut config = hse_8mhz_config();
    config.input_src = InputSrc::Msi(MsiRange::Range0);
    assert_eq!(config.calc_speeds().sysclk, 100_000);
    config.input_src = InputSrc::Msi(MsiRange::Range9);
    assert_eq!(config.calc_speeds().sysclk, 24_000_000);
    config.input_src = InputSrc::Msi(MsiRange::Range11);
    assert_eq!(config.calc_speeds().sysclk, 48_000_000);
}

#[test]
fn usb_clock_exactness() {
    let mut config = hse_8mhz_config();
    // 16 MHz HSI / 2 * 12 / 2 = 48 MHz exactly.
    config.input_src = InputSrc::Pll(PllSrc::Hsi);
    config.pllm = Pllm::Div2;
    config.pll_sai1_mul = 12;
    assert_eq!(config.calc_speeds().usb, 48_000_000);
    assert!(matches!(config.validate_usb(), Validation::Valid));

    // With the multiplier at 14 the tap gives 56 MHz: not a USB clock.
    config.pll_sai1_mul = 14;
    assert!(matches!(config.validate_usb(), Validation::NotValid));
}

#[test]
fn free_validate_checks_each_bus() {
    let good = Speeds {
        sysclk: 80_000_000,
        hclk: 80_000_000,
        systick: 80_000_000,
        fclk: 80_000_000,
        pclk1: 80_000_000,
        timer1: 80_000_000,
        pclk2: 80_000_000,
        timer2: 80_000_000,
        usb: 48_500_000,
    };
    let (main, usb) = validate(good);
    assert!(matches!(main, Validation::Valid));
    // 48.5 MHz truncates to 48 whole megahertz: accepted.
    assert!(matches!(usb, Validation::Valid));

    let mut bad = good;
    bad.pclk1 = 80_000_001;
    assert!(matches!(validate(bad).0, Validation::NotValid));

    let mut bad = good;
    bad.sysclk = 0;
    assert!(matches!(validate(bad).0, Validation::NotValid));

    let mut bad = good;
    bad.usb = 49_000_000;
    assert!(matches!(validate(bad).1, Validation::NotValid));
}

#[test]
fn presets_are_valid() {
    let preset = Clocks::hsi_preset();
    assert!(matches!(preset.input_src, InputSrc::Pll(PllSrc::Hsi)));
    assert_eq!(preset.calc_speeds().sysclk, 80_000_000);
    assert!(matches!(preset.validate(), Validation::Valid));

    let default = Clocks::default();
    assert!(matches!(default.input_src, InputSrc::Pll(PllSrc::Hse(8))));
    assert_eq!(default.calc_speeds().sysclk, 80_000_000);
    assert!(matches!(default.validate(), Validation::Valid));
}

#[test]
fn scaler_values_and_bits() {
    assert_eq!(Prediv::Div3.value(), 3);
    assert_eq!(Pllm::Div8.value(), 8);
    assert_eq!(Pllm::Div8.bits(), 0b111);
    assert_eq!(Pllr::Div6.value(), 6);
    assert_eq!(Pllr::Div6.bits(), 0b10);
    assert_eq!(HclkPrescaler::Div512.value(), 512);
    assert_eq!(HclkPrescaler::Div512.bits(), 0b1111);
    assert_eq!(HclkPrescaler::Div1.bits(), 0b0000);
    assert_eq!(ApbPrescaler::Div16.value(), 16);
    assert_eq!(ApbPrescaler::Div16.bits(), 0b111);
    assert_eq!(ApbPrescaler::Div1.bits(), 0b000);
    assert_eq!(MsiRange::Range11.bits(), 0b1011);
    assert_eq!(Clk48Src::Msi.bits(), 0b11);
    assert_eq!(PllSrc::Hsi.bits(), 0b10);
    assert_eq!(PllSrc::Disabled.bits(), 0b00);
    assert_eq!(InputSrc::Hse(8).bits(), 0b10);
    assert_eq!(InputSrc::Pll(PllSrc::Hse(8)).bits(), 0b11);
}

#[test]
fn setup_rejects_invalid_config_and_touches_nothing() {
    let mut config = hse_8mhz_config();
    config.pll_vco_mul = 6;
    let mut rcc_regs = RCC::reset();
    let mut flash = FLASH::reset();
    let before_rcc = rcc_regs;
    let before_flash = flash;

    let result = config.setup(&mut rcc_regs, &mut flash);

    assert!(result.is_err());
    assert_eq!(rcc_regs, before_rcc);
    assert_eq!(flash, before_flash);
}

#[test]
fn setup_rejects_over_ceiling_config_and_touches_nothing() {
    let mut config = hse_8mhz_config();
    config.pll_vco_mul = 40;  // 160 MHz: over every bus ceiling
    let mut rcc_regs = RCC::reset();
    let mut flash = FLASH::reset();
    let before_rcc = rcc_regs;

    assert!(config.setup(&mut rcc_regs, &mut flash).is_err());
    assert_eq!(rcc_regs, before_rcc);
}

#[test]
fn setup_programs_pll_chain() {
    let config = hse_8mhz_config();
    let mut rcc_regs = RCC::reset();
    let mut flash = FLASH::reset();

    let result = config.setup(&mut rcc_regs, &mut flash);
    assert!(result.is_ok());

    // The HSE behind the PLL was enabled and settled.
    assert!(rcc_regs.cr.hseon);
    assert!(rcc_regs.cr.hserdy);
    assert!(!rcc_regs.cr.hsebyp);

    // The PLL is configured, locked, and its taps are open.
    assert!(rcc_regs.cr.pllon);
    assert!(rcc_regs.cr.pllrdy);
    assert_eq!(rcc_regs.pllcfgr.pllsrc, 0b11);
    assert_eq!(rcc_regs.pllcfgr.plln, 20);
    assert_eq!(rcc_regs.pllcfgr.pllm, 0b000);
    assert_eq!(rcc_regs.pllcfgr.pllr, 0b00);
    assert!(rcc_regs.pllcfgr.pllpen);
    assert!(rcc_regs.pllcfgr.pllqen);
    assert!(rcc_regs.pllcfgr.pllren);

    // The disabled auxiliary PLLs were left alone.
    assert_eq!(rcc_regs.pllsai1cfgr, RCC::reset().pllsai1cfgr);
    assert_eq!(rcc_regs.pllsai2cfgr, RCC::reset().pllsai2cfgr);

    // The switchover: system clock from the PLL, all prescalers at one.
    assert_eq!(rcc_regs.cfgr.sw, 0b11);
    assert_eq!(rcc_regs.cfgr.hpre, 0b0000);
    assert_eq!(rcc_regs.cfgr.ppre1, 0b000);
    assert_eq!(rcc_regs.cfgr.ppre2, 0b000);
    assert_eq!(rcc_regs.ccipr.clk48sel, 0b01);

    // 80 MHz AHB needs the longest flash wait state.
    assert_eq!(flash.acr.latency, 0b100);
}

#[test]
fn setup_enables_auxiliary_pll_when_asked() {
    let mut config = hse_8mhz_config();
    config.sai1_enabled = true;
    let mut rcc_regs = RCC::reset();
    let mut flash = FLASH::reset();

    assert!(config.setup(&mut rcc_regs, &mut flash).is_ok());
    assert!(rcc_regs.cr.pllsai1on);
    assert!(rcc_regs.cr.pllsai1rdy);
    assert_eq!(rcc_regs.pllsai1cfgr.pllsai1n, 8);
    assert!(rcc_regs.pllsai1cfgr.pllsai1pen);
    assert!(rcc_regs.pllsai1cfgr.pllsai1ren);
    // The second auxiliary stayed disabled.
    assert_eq!(rcc_regs.pllsai2cfgr, RCC::reset().pllsai2cfgr);
}

#[test]
fn setup_direct_msi_leaves_pll_registers_alone() {
    let mut config = hse_8mhz_config();
    config.input_src = InputSrc::Msi(MsiRange::Range6);
    let mut rcc_regs = RCC::reset();
    let mut flash = FLASH::reset();

    assert!(config.setup(&mut rcc_regs, &mut flash).is_ok());
    assert!(rcc_regs.cr.msion);
    assert!(rcc_regs.cr.msirdy);
    assert!(rcc_regs.cr.msirgsel);
    assert_eq!(rcc_regs.cr.msirange, 0b0110);
    assert_eq!(rcc_regs.cfgr.sw, 0b00);
    assert_eq!(rcc_regs.pllcfgr, RCC::reset().pllcfgr);
    // 4 MHz AHB: zero wait states.
    assert_eq!(flash.acr.latency, 0b000);
}

#[test]
fn setup_enables_hsi48_when_selected() {
    let mut config = hse_8mhz_config();
    config.clk48_src = Clk48Src::Hsi48;
    let mut rcc_regs = RCC::reset();
    let mut flash = FLASH::reset();

    assert!(config.setup(&mut rcc_regs, &mut flash).is_ok());
    assert_eq!(rcc_regs.ccipr.clk48sel, 0b00);
    assert!(rcc_regs.crrcr.hsi48on);
    assert!(rcc_regs.crrcr.hsi48rdy);
}

#[test]
fn flash_latency_bands() {
    // 16 MHz HSI directly: lowest band.
    let mut config = hse_8mhz_config();
    config.input_src = InputSrc::Hsi;
    let mut rcc_regs = RCC::reset();
    let mut flash = FLASH::reset();
    assert!(config.setup(&mut rcc_regs, &mut flash).is_ok());
    assert_eq!(flash.acr.latency, 0b000);

    // 8 MHz HSE * 12 / 2 = 48 MHz: third band.
    let mut config = hse_8mhz_config();
    config.pll_vco_mul = 12;
    let mut rcc_regs = RCC::reset();
    let mut flash = FLASH::reset();
    assert!(config.setup(&mut rcc_regs, &mut flash).is_ok());
    assert_eq!(flash.acr.latency, 0b010);
}

#[test]
fn make_rcc_clocks_summarises_whole_megahertz() {
    let config = hse_8mhz_config();
    let summary = config.make_rcc_clocks();
    assert_eq!(
        summary,
        rcc::Clocks {
            hclk: Hertz(80_000_000),
            hsi48: false,
            msi: None,
            lsi: false,
            lse: false,
            pclk1: Hertz(80_000_000),
            pclk2: Hertz(80_000_000),
            ppre1: 1,
            ppre2: 1,
            sysclk: Hertz(80_000_000),
            pll_source: Some(rcc::PllSource::HSE),
        }
    );
}

#[test]
fn make_rcc_clocks_reports_msi_selection() {
    let mut config = hse_8mhz_config();
    config.input_src = InputSrc::Msi(MsiRange::Range7);
    let summary = config.make_rcc_clocks();
    assert_eq!(summary.msi, Some(rcc::MsiFreq::RANGE8M));
    assert_eq!(summary.sysclk, Hertz(8_000_000));
    assert_eq!(summary.pll_source, None);

    config.input_src = InputSrc::Pll(PllSrc::Msi(MsiRange::Range7));
    let summary = config.make_rcc_clocks();
    assert_eq!(summary.msi, Some(rcc::MsiFreq::RANGE8M));
    assert_eq!(summary.pll_source, Some(rcc::PllSource::MSI));
}

#[test]
fn make_rcc_clocks_truncates_fractional_megahertz() {
    // 8 MHz / 3 * 20 / 2 = 26.666 MHz, summarised as 26 MHz whole.
    let mut config = hse_8mhz_config();
    config.pllm = Pllm::Div3;
    let speeds = config.calc_speeds();
    assert_eq!(speeds.sysclk, 26_666_660);
    let summary = config.make_rcc_clocks();
    assert_eq!(summary.sysclk, Hertz(26_000_000));
}
