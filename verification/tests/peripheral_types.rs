use stm32l4_hal::adc::{Resolution, SampleTime};
use stm32l4_hal::rcc::Clocks;
use stm32l4_hal::time::Hertz;
use stm32l4_hal::timer::{
    Alignment, CaptureCompare, Channel, OutputCompare, Polarity, Timer,
};

#[test]
fn adc_defaults() {
    assert_eq!(Resolution::default(), Resolution::Bits12);
    assert_eq!(SampleTime::default(), SampleTime::Cycles2_5);
}

#[test]
fn adc_field_encodings() {
    assert_eq!(Resolution::Bits12.bits(), 0b00);
    assert_eq!(Resolution::Bits10.bits(), 0b01);
    assert_eq!(Resolution::Bits8.bits(), 0b10);
    assert_eq!(Resolution::Bits6.bits(), 0b11);
    assert_eq!(SampleTime::Cycles2_5.bits(), 0b000);
    assert_eq!(SampleTime::Cycles640_5.bits(), 0b111);
    assert_eq!(SampleTime::Cycles47_5.bits(), 0b100);
}

#[test]
fn output_compare_left_bit_marks_extended_modes() {
    assert!(!OutputCompare::Frozen.left_bit());
    assert!(!OutputCompare::Pwm1.left_bit());
    assert!(!OutputCompare::Pwm2.left_bit());
    assert!(OutputCompare::RetriggerableOpmMode1.left_bit());
    assert!(OutputCompare::CombinedPwm1.left_bit());
    assert!(OutputCompare::AsymmetricPwm2.left_bit());
}

#[test]
fn output_compare_bits() {
    assert_eq!(OutputCompare::Frozen.bits(), 0b0000);
    assert_eq!(OutputCompare::Pwm1.bits(), 0b0110);
    assert_eq!(OutputCompare::Pwm2.bits(), 0b0111);
    assert_eq!(OutputCompare::AsymmetricPwm2.bits(), 0b1111);
}

#[test]
fn polarity_bit_is_active_low() {
    assert!(!Polarity::ActiveHigh._bit());
    assert!(Polarity::ActiveLow._bit());
}

#[test]
fn alignment_and_capture_compare_bits() {
    assert_eq!(Alignment::Edge.bits(), 0b00);
    assert_eq!(Alignment::Center3.bits(), 0b11);
    assert_eq!(CaptureCompare::Output.bits(), 0b00);
    assert_eq!(CaptureCompare::InputTrc.bits(), 0b11);
}

#[test]
fn timer_struct_carries_its_pieces() {
    let clocks = Clocks {
        hclk: Hertz(80_000_000),
        hsi48: false,
        msi: None,
        lsi: false,
        lse: false,
        pclk1: Hertz(80_000_000),
        pclk2: Hertz(80_000_000),
        ppre1: 1,
        ppre2: 1,
        sysclk: Hertz(80_000_000),
        pll_source: None,
    };
    let timer = Timer { clocks, tim: (), timeout: Hertz(1_000) };
    assert_eq!(timer.timeout, Hertz(1_000));
    assert_eq!(timer.clocks.sysclk, Hertz(80_000_000));
    let _channel = Channel::One;
}
