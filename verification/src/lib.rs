//! Peripheral abstraction core for an STM32L4-class microcontroller: clock-tree
//! configuration and validation, RTC calendar/alarm/wakeup handling, low-power
//! mode sequencing, and the enumerations shared by the timer and ADC drivers.
//!
//! Hardware registers are represented by the plain-value register models in
//! [`pac`]: each peripheral is an owned handle passed explicitly into the
//! functions that program it, so every register write is visible in a
//! function's contract.

pub mod adc;
pub mod clocks;
pub mod datetime;
pub mod low_power;
pub mod pac;
pub mod rcc;
pub mod rtc;
pub mod time;
pub mod timer;
