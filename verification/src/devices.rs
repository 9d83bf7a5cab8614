//! Capability interfaces to the hardware the control engine drives.
//!
//! The engine is generic over these traits; the hardware-binding code (or a
//! test harness) implements them. They carry no contracts: every property
//! the engine guarantees holds whatever values the devices return.

use vstd::prelude::*;

verus! {

use crate::ad7172::PostFilter;
use crate::channels::PinsAdcReadTarget;

/// The precision thermistor ADC: conversion polling and postfilter control.
pub trait AdcDevice {
    /// Non-blocking: the channel whose conversion finished, if any.
    fn data_ready(&mut self) -> Option<u8>;

    /// The last conversion's raw code (significant in the low 24 bits).
    fn read_data(&mut self) -> u32;

    /// The postfilter currently configured for an ADC channel.
    fn get_postfilter(&mut self, index: u8) -> Option<PostFilter>;

    /// Configure or disable the postfilter of an ADC channel.
    fn set_postfilter(&mut self, index: u8, filter: Option<PostFilter>);
}

/// One channel's actuator chain: the current-control DAC and the driver
/// chip's shutdown control.
pub trait DacDevice {
    /// Write a DAC code (significant in the low 18 bits).
    fn set(&mut self, value: u32);

    /// Enable the actuator driver.
    fn power_up(&mut self);

    /// Disable the actuator driver.
    fn power_down(&mut self);
}

/// One PWM-generated limit rail: duty cycle as a fraction of the counter
/// period.
pub trait PwmOutput {
    /// The counter value that corresponds to 100 percent duty.
    fn get_max_duty(&self) -> u16;

    /// Apply a duty value; the hardware holds exactly `duty / max` of the
    /// period high.
    fn set_duty(&mut self, duty: u16);
}

/// The microcontroller's auxiliary ADC, multiplexed over the analog
/// monitoring pins of both channels.
pub trait AuxAdcSampler {
    /// One conversion of the selected pin; raw counter code.
    fn convert(&mut self, channel: u8, target: PinsAdcReadTarget) -> u16;

    /// The board's code-to-millivolt conversion for this ADC.
    fn sample_to_millivolts(&mut self, sample: u16) -> u16;
}

/// A blocking settling delay, used only by the one-shot calibration that
/// runs before the control loop is live.
pub trait DelayTimer {
    /// Block for at least `ms` milliseconds.
    fn sleep_ms(&mut self, ms: u32);
}

} // verus!
