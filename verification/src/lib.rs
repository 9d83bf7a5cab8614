//! Dual-channel thermo-electric-cooler (TEC) temperature controller core.
//!
//! The controller reads thermistor resistance through a precision ADC,
//! converts it to a temperature, runs a discrete PID control law, and drives
//! the actuator through a DAC and PWM-limited analog chain, enforcing
//! configurable safety limits and channel polarity.
//!
//! All physical quantities are carried as fixed-point integers with explicit
//! units: voltages in microvolts, currents in microamps, resistances in
//! milliohms, temperatures in millikelvin (or millidegree Celsius where
//! noted), and times in milliseconds.

use vstd::prelude::*;

pub mod ad7172;
pub mod b_parameter;
pub mod channel_state;
pub mod channels;
pub mod command_handler;
pub mod commands;
pub mod config;
pub mod devices;
pub mod pid;
pub mod session;
pub mod steinhart_hart;
pub mod thermo;

verus! {

/// Absolute maximum TEC current magnitude, in microamps (2 A).
pub const MAX_TEC_I_UA: i64 = 2_000_000;

/// Absolute maximum TEC voltage, in microvolts (4 V).
pub const MAX_TEC_V_UV: i64 = 4_000_000;

/// Clamp a current request into the device's absolute current range.
pub fn clamp_tec_i(i_ua: i64) -> (r: i64)
    ensures
        r == clamp_i64(i_ua as int, -MAX_TEC_I_UA as int, MAX_TEC_I_UA as int),
{
    if i_ua > MAX_TEC_I_UA {
        MAX_TEC_I_UA
    } else if i_ua < -MAX_TEC_I_UA {
        -MAX_TEC_I_UA
    } else {
        i_ua
    }
}

/// A product of two magnitude-bounded integers is magnitude-bounded by the
/// product of the bounds.
pub proof fn lemma_mul_bound(a: int, b: int, m: int, n: int)
    by (nonlinear_arith)
    requires
        -m <= a <= m,
        -n <= b <= n,
        0 <= m,
        0 <= n,
    ensures
        -(m * n) <= a * b <= m * n,
{
}

/// Multiplying both sides of an inequality by a nonnegative factor keeps
/// the inequality.
pub proof fn lemma_mul_mono(a: int, b: int, c: int)
    by (nonlinear_arith)
    requires
        a <= b,
        0 <= c,
    ensures
        c * a <= c * b,
        a * c <= b * c,
{
}

/// `v` saturated into `[lo, hi]`; when `lo > hi` the upper bound wins.
pub open spec fn clamp_i64(v: int, lo: int, hi: int) -> int {
    if v > hi {
        hi
    } else if v < lo {
        lo
    } else {
        v
    }
}

} // verus!
