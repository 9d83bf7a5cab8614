//! The dual-channel control engine: it owns both channels' state and device
//! handles and realizes every control and command operation as a
//! physically-correct transform.
//!
//! Signal chain of the current setpoint: the requested current is clamped to
//! the device maximum, multiplied by the driver gain times the sense
//! resistance (0.5 ohm, so microamps halve into microvolts), offset by the
//! channel's calibrated zero-current center voltage, quantized to a DAC
//! code, and the achieved current is recovered by inverting the quantized
//! voltage through the same relation. The DAC code is rounded toward the
//! center voltage, so the achieved current magnitude never exceeds the
//! request.

use vstd::prelude::*;

verus! {

use vstd::arithmetic::div_mod::{lemma_fundamental_div_mod, lemma_div_is_ordered,
    lemma_div_multiples_vanish, lemma_div_pos_is_pos};
use crate::ad7172::{self, PostFilter};
use crate::b_parameter;
use crate::channel_state::{AdcCalibration, ChannelState};
use crate::clamp_i64;
use crate::commands::{CenterPoint, Polarity};
use crate::config::OutputLimits;
use crate::devices::{AdcDevice, AuxAdcSampler, DacDevice, DelayTimer, PwmOutput};
use crate::pid;
use crate::thermo::div_trunc;
use crate::{MAX_TEC_I_UA, MAX_TEC_V_UV};

/// Number of controller channels.
pub const CHANNELS: usize = 2;

/// Largest DAC code (18 bits).
pub const DAC_MAX_CODE: i64 = 0x3FFFF;

/// DAC output span after the output divider, in microvolts (3 V).
pub const DAC_OUT_V_MAX_UV: i64 = 3_000_000;

/// The microcontroller's analog reference, in microvolts (3.3 V): full PWM
/// duty corresponds to this limit-rail voltage.
pub const CPU_ADC_VREF_UV: i64 = 3_300_000;

/// Current sense resistance, in milliohms.
pub const R_SENSE_MOHM: i64 = 50;

/// Which analog monitoring quantity an auxiliary-ADC read targets.
#[derive(Clone, Copy, Debug, PartialEq, Eq, Structural)]
pub enum PinsAdcReadTarget {
    VRef,
    DacVfb,
    ITec,
    VTec,
}

/// The six PWM limit rails: one voltage limit and two current limits per
/// channel.
pub struct PwmLimits<P> {
    pub max_v0: P,
    pub max_i_pos0: P,
    pub max_i_neg0: P,
    pub max_v1: P,
    pub max_i_pos1: P,
    pub max_i_neg1: P,
}

/// The sign a channel's polarity applies to currents and voltages.
pub open spec fn polarity_sign(p: Polarity) -> int {
    match p {
        Polarity::Normal => 1,
        Polarity::Reversed => -1,
    }
}

/// The DAC code for a requested voltage, rounded toward the channel's
/// center voltage: at or above the center the code rounds down, below it
/// the code rounds up, so the quantized voltage never overshoots the
/// request away from the center.
pub open spec fn dac_code_spec(v: int, center: int) -> int {
    let vc = clamp_i64(v, 0, DAC_OUT_V_MAX_UV as int);
    if vc >= center {
        (vc * (DAC_MAX_CODE as int)) / (DAC_OUT_V_MAX_UV as int)
    } else {
        (vc * (DAC_MAX_CODE as int) + DAC_OUT_V_MAX_UV - 1) / (DAC_OUT_V_MAX_UV as int)
    }
}

/// The physical voltage of a DAC code, in microvolts.
pub open spec fn dac_voltage_spec(code: int) -> int {
    (code * (DAC_OUT_V_MAX_UV as int)) / (DAC_MAX_CODE as int)
}

/// Rounding down to a DAC code loses less than one code's voltage:
/// the code is in range and its voltage is in `(vc - 12, vc]`.
proof fn lemma_dac_floor(vc: int)
    requires
        0 <= vc <= DAC_OUT_V_MAX_UV,
    ensures
        0 <= (vc * (DAC_MAX_CODE as int)) / (DAC_OUT_V_MAX_UV as int) <= DAC_MAX_CODE,
        vc - 12 <= dac_voltage_spec((vc * (DAC_MAX_CODE as int)) / (DAC_OUT_V_MAX_UV as int)) <= vc,
{
    let m = DAC_MAX_CODE as int;
    let v = DAC_OUT_V_MAX_UV as int;
    let code = (vc * m) / v;
    assert(vc * m == m * vc) by (nonlinear_arith);
    lemma_div_pos_is_pos(vc * m, v);
    lemma_div_is_ordered(vc * m, v * m, v);
    lemma_div_multiples_vanish(m, v);
    lemma_fundamental_div_mod(vc * m, v);
    let r = (vc * m) % v;
    assert(code * v == vc * m - r) by (nonlinear_arith)
        requires
            vc * m == v * code + r,
    ;
    lemma_div_is_ordered(code * v, vc * m, m);
    lemma_div_multiples_vanish(vc, m);
    assert(code * v >= m * (vc - 12) + (12 * m - v)) by (nonlinear_arith)
        requires
            code * v == vc * m - r,
            r < v,
            m == 262143,
            v == 3_000_000,
    ;
    lemma_div_is_ordered(m * (vc - 12), code * v, m);
    lemma_div_multiples_vanish(vc - 12, m);
}

/// Rounding up to a DAC code overshoots by less than one code's voltage:
/// the code is in range and its voltage is in `[vc, vc + 12)`.
proof fn lemma_dac_ceil(vc: int)
    requires
        0 <= vc <= DAC_OUT_V_MAX_UV,
    ensures
        0 <= (vc * (DAC_MAX_CODE as int) + DAC_OUT_V_MAX_UV - 1) / (DAC_OUT_V_MAX_UV as int)
            <= DAC_MAX_CODE,
        vc <= dac_voltage_spec(
            (vc * (DAC_MAX_CODE as int) + DAC_OUT_V_MAX_UV - 1) / (DAC_OUT_V_MAX_UV as int),
        ) <= vc + 11,
{
    let m = DAC_MAX_CODE as int;
    let v = DAC_OUT_V_MAX_UV as int;
    let code = (vc * m + v - 1) / v;
    assert(vc * m == m * vc) by (nonlinear_arith);
    lemma_div_pos_is_pos(vc * m + v - 1, v);
    lemma_div_is_ordered(vc * m + v - 1, v * m + v - 1, v);
    assert((v * m + v - 1) / v == m) by {
        lemma_fundamental_div_mod(v * m + v - 1, v);
        vstd::arithmetic::div_mod::lemma_fundamental_div_mod_converse_div(
            v * m + v - 1,
            v,
            m,
            v - 1,
        );
        assert(v * m + v - 1 == m * v + (v - 1)) by (nonlinear_arith);
    }
    lemma_fundamental_div_mod(vc * m + v - 1, v);
    let r = (vc * m + v - 1) % v;
    assert(code * v == vc * m + (v - 1 - r)) by (nonlinear_arith)
        requires
            vc * m + v - 1 == v * code + r,
    ;
    lemma_div_is_ordered(vc * m, code * v, m);
    lemma_div_multiples_vanish(vc, m);
    assert(code * v <= m * (vc + 11) + (m - 1)) by (nonlinear_arith)
        requires
            code * v == vc * m + (v - 1 - r),
            0 <= r,
            m == 262143,
            v == 3_000_000,
    ;
    lemma_div_is_ordered(code * v, m * (vc + 11) + (m - 1), m);
    assert((m * (vc + 11) + (m - 1)) / m == vc + 11) by {
        lemma_fundamental_div_mod(m * (vc + 11) + (m - 1), m);
        vstd::arithmetic::div_mod::lemma_fundamental_div_mod_converse_div(
            m * (vc + 11) + (m - 1),
            m,
            vc + 11,
            m - 1,
        );
        assert(m * (vc + 11) + (m - 1) == (vc + 11) * m + (m - 1)) by (nonlinear_arith);
    }
}

/// The channel state and achieved current of one `set_i` call: the request
/// clamped to the device range, turned into a DAC voltage about the center,
/// quantized, and inverted back.
pub open spec fn set_i_outcome(s: ChannelState, i: int) -> (ChannelState, int) {
    let ic = clamp_i64(i, -MAX_TEC_I_UA as int, MAX_TEC_I_UA as int);
    let sign = polarity_sign(s.polarity);
    let vt = s.vref_meas + sign * div_trunc(ic, 2);
    let code = dac_code_spec(vt, s.vref_meas as int);
    let vq = dac_voltage_spec(code);
    let s2 = ChannelState { i_set: ic as i64, dac_value: vq as i64, ..s };
    (s2, sign * (vq - s.vref_meas) * 2)
}

/// The achieved current of a `set_i` call never exceeds the device's
/// absolute maximum current, whatever was requested: quantization rounds
/// toward the center, so the achieved magnitude can only fall short.
pub proof fn lemma_set_i_bounded(s: ChannelState, i: int)
    requires
        s.wf(),
    ensures
        -MAX_TEC_I_UA <= set_i_outcome(s, i).1 <= MAX_TEC_I_UA,
        0 <= set_i_outcome(s, i).0.dac_value <= DAC_OUT_V_MAX_UV,
        set_i_outcome(s, i).0.wf(),
{
    let ic = clamp_i64(i, -MAX_TEC_I_UA as int, MAX_TEC_I_UA as int);
    let sign = polarity_sign(s.polarity);
    let off = sign * div_trunc(ic, 2);
    let c = s.vref_meas as int;
    let vt = c + off;
    let vc = clamp_i64(vt, 0, DAC_OUT_V_MAX_UV as int);
    assert(-1_000_000 <= off <= 1_000_000);
    if vc >= c {
        lemma_dac_floor(vc);
        assert(vc - c <= 1_000_000);
    } else {
        lemma_dac_ceil(vc);
        assert(c - vc <= 1_000_000);
    }
}

/// Repeating an identical `set_i` call changes nothing and returns the same
/// achieved current: the outcome depends only on the polarity and center
/// voltage, which the call leaves untouched.
pub proof fn lemma_set_i_idempotent(s: ChannelState, i: int)
    requires
        s.wf(),
    ensures
        set_i_outcome(set_i_outcome(s, i).0, i) == set_i_outcome(s, i),
{
    let (s2, r) = set_i_outcome(s, i);
    let (s3, r2) = set_i_outcome(s2, i);
    assert(s3 == s2);
    assert(r2 == r);
}

/// Reversing polarity and re-requesting the same current magnitude drives
/// the DAC to the opposite side of the center voltage, while the achieved
/// current magnitude changes by at most one quantization step on each side
/// (24 microamps). The request must be large enough to stand clear of the
/// quantization (at least 26 microamps) and the center must sit inside the
/// DAC span with a full current swing of room.
#[verifier::rlimit(100)]
#[verifier::spinoff_prover]
pub proof fn lemma_set_i_polarity_reversal(s: ChannelState, flipped: ChannelState, i: int)
    requires
        s.wf(),
        flipped.wf(),
        s.polarity == Polarity::Normal,
        flipped.polarity == Polarity::Reversed,
        flipped.vref_meas == s.vref_meas,
        1_000_000 <= s.vref_meas <= 2_000_000,
        26 <= i <= MAX_TEC_I_UA,
    ensures
        set_i_outcome(s, i).0.dac_value > s.vref_meas,
        set_i_outcome(flipped, i).0.dac_value < s.vref_meas,
        set_i_outcome(s, i).1 > 0,
        set_i_outcome(flipped, i).1 > 0,
        -24 <= set_i_outcome(s, i).1 - set_i_outcome(flipped, i).1 <= 24,
{
    let c = s.vref_meas as int;
    let ic = clamp_i64(i, -MAX_TEC_I_UA as int, MAX_TEC_I_UA as int);
    assert(ic == i);
    let off = div_trunc(ic, 2);
    assert(off == i / 2);
    assert(13 <= off <= 1_000_000);
    let vtn = c + off;
    let vtr = c - off;
    assert(clamp_i64(vtn, 0, DAC_OUT_V_MAX_UV as int) == vtn);
    assert(clamp_i64(vtr, 0, DAC_OUT_V_MAX_UV as int) == vtr);
    lemma_dac_floor(vtn);
    lemma_dac_ceil(vtr);
    let vqn = dac_voltage_spec(dac_code_spec(vtn, c));
    let vqr = dac_voltage_spec(dac_code_spec(vtr, c));
    assert(vtn - 12 <= vqn <= vtn);
    assert(vtr <= vqr <= vtr + 11);
    assert(set_i_outcome(s, i).1 == 1 * (vqn - c) * 2);
    assert(set_i_outcome(flipped, i).1 == -1 * (vqr - c) * 2);
}

/// The dual-channel control engine: two channel states plus the device
/// handles they drive.
pub struct Channels<A, D, P, S, T> {
    pub channel0: ChannelState,
    pub channel1: ChannelState,
    /// The precision thermistor ADC.
    pub adc: A,
    /// Channel 0's actuator DAC and driver enable.
    pub dac0: D,
    /// Channel 1's actuator DAC and driver enable.
    pub dac1: D,
    /// The microcontroller's integrated auxiliary ADC.
    pub pins_adc: S,
    /// The PWM limit rails.
    pub pwm: PwmLimits<P>,
    /// Settling delays for the one-shot calibration.
    pub delay: T,
}

impl<A: AdcDevice, D: DacDevice, P: PwmOutput, S: AuxAdcSampler, T: DelayTimer> Channels<
    A,
    D,
    P,
    S,
    T,
> {
    /// The state of a channel, by index.
    pub open spec fn state_spec(self, ch: int) -> ChannelState {
        if ch == 0 {
            self.channel0
        } else {
            self.channel1
        }
    }

    pub open spec fn wf(self) -> bool {
        self.channel0.wf() && self.channel1.wf()
    }

    /// Both channel states, unchanged between two engine values.
    pub open spec fn states_unchanged(pre: Self, post: Self) -> bool {
        post.channel0 == pre.channel0 && post.channel1 == pre.channel1
    }

    /// The channel other than `ch`, unchanged.
    pub open spec fn other_unchanged(pre: Self, post: Self, ch: int) -> bool {
        &&& ch == 0 ==> post.channel1 == pre.channel1
        &&& ch != 0 ==> post.channel0 == pre.channel0
    }

    /// Mutable access to one channel's state.
    pub fn channel_state(&mut self, channel: usize) -> (state: &mut ChannelState)
        requires
            channel < 2,
        ensures
            *state == old(self).state_spec(channel as int),
            final(self).channel0 == (if channel == 0 {
                *final(state)
            } else {
                old(self).channel0
            }),
            final(self).channel1 == (if channel == 1 {
                *final(state)
            } else {
                old(self).channel1
            }),
            final(self).adc == old(self).adc,
            final(self).dac0 == old(self).dac0,
            final(self).dac1 == old(self).dac1,
            final(self).pins_adc == old(self).pins_adc,
            final(self).pwm == old(self).pwm,
            final(self).delay == old(self).delay,
    {
        match channel {
            0 => &mut self.channel0,
            _ => &mut self.channel1,
        }
    }

    /// Write a voltage to a channel's current-control DAC: the request is
    /// clamped into the DAC span, quantized toward the channel's center
    /// voltage, written, and the quantized physical voltage is recorded in
    /// the state and returned.
    fn set_dac(&mut self, channel: usize, voltage: i64) -> (v: i64)
        requires
            channel < 2,
            old(self).wf(),
            -10_000_000 <= voltage <= 10_000_000,
        ensures
            final(self).wf(),
            ({
                let s = old(self).state_spec(channel as int);
                let vq = dac_voltage_spec(dac_code_spec(voltage as int, s.vref_meas as int));
                v == vq && final(self).state_spec(channel as int) == (ChannelState {
                    dac_value: v,
                    ..s
                })
            }),
            Self::other_unchanged(*old(self), *final(self), channel as int),
    {
        let vref: i64 = match channel {
            0 => self.channel0.vref_meas,
            _ => self.channel1.vref_meas,
        };
        let vc: i64 = if voltage > DAC_OUT_V_MAX_UV {
            DAC_OUT_V_MAX_UV
        } else if voltage < 0 {
            0
        } else {
            voltage
        };
        let code: i64 = if vc >= vref {
            proof {
                lemma_dac_floor(vc as int);
            }
            (vc * DAC_MAX_CODE) / DAC_OUT_V_MAX_UV
        } else {
            proof {
                lemma_dac_ceil(vc as int);
            }
            (vc * DAC_MAX_CODE + DAC_OUT_V_MAX_UV - 1) / DAC_OUT_V_MAX_UV
        };
        let vq: i64 = (code * DAC_OUT_V_MAX_UV) / DAC_MAX_CODE;
        match channel {
            0 => {
                self.dac0.set(code as u32);
                self.channel0.dac_value = vq;
            },
            _ => {
                self.dac1.set(code as u32);
                self.channel1.dac_value = vq;
            },
        }
        vq
    }

    /// Command a current setpoint. The request is clamped to the device's
    /// absolute maximum, signed by the channel polarity, transformed into a
    /// DAC voltage about the calibrated center, and written; the returned
    /// value is the current actually achievable after quantization, which
    /// callers must treat as the true applied setpoint. Its magnitude never
    /// exceeds the device maximum.
    pub fn set_i(&mut self, channel: usize, i_set: i64) -> (r: i64)
        requires
            channel < 2,
            old(self).wf(),
        ensures
            final(self).wf(),
            final(self).state_spec(channel as int) == set_i_outcome(
                old(self).state_spec(channel as int),
                i_set as int,
            ).0,
            r == set_i_outcome(old(self).state_spec(channel as int), i_set as int).1,
            -MAX_TEC_I_UA <= r <= MAX_TEC_I_UA,
            Self::other_unchanged(*old(self), *final(self), channel as int),
    {
        proof {
            lemma_set_i_bounded(old(self).state_spec(channel as int), i_set as int);
        }
        let ic: i64 = crate::clamp_tec_i(i_set);
        let (negate, vref): (i64, i64) = match channel {
            0 => {
                self.channel0.i_set = ic;
                (
                    match self.channel0.polarity {
                        Polarity::Normal => 1i64,
                        Polarity::Reversed => -1i64,
                    },
                    self.channel0.vref_meas,
                )
            },
            _ => {
                self.channel1.i_set = ic;
                (
                    match self.channel1.polarity {
                        Polarity::Normal => 1i64,
                        Polarity::Reversed => -1i64,
                    },
                    self.channel1.vref_meas,
                )
            },
        };
        let off: i64 = if ic >= 0 {
            ic / 2
        } else {
            -((-ic) / 2)
        };
        proof {
            crate::lemma_mul_bound(negate as int, off as int, 1, 1_000_000);
        }
        let voltage: i64 = vref + negate * off;
        let vq: i64 = self.set_dac(channel, voltage);
        proof {
            crate::lemma_mul_bound(negate as int, vq - vref, 1, 3_000_000);
        }
        negate * (vq - vref) * 2
    }

    /// Enable a channel's actuator driver.
    pub fn power_up(&mut self, channel: usize)
        requires
            channel < 2,
            old(self).wf(),
        ensures
            final(self).wf(),
            final(self).state_spec(channel as int) == (ChannelState {
                powered: true,
                ..old(self).state_spec(channel as int)
            }),
            Self::other_unchanged(*old(self), *final(self), channel as int),
    {
        match channel {
            0 => {
                self.dac0.power_up();
                self.channel0.powered = true;
            },
            _ => {
                self.dac1.power_up();
                self.channel1.powered = true;
            },
        }
    }

    /// Disable a channel's actuator driver: the fail-safe state when a
    /// setpoint cannot be trusted.
    pub fn power_down(&mut self, channel: usize)
        requires
            channel < 2,
            old(self).wf(),
        ensures
            final(self).wf(),
            final(self).state_spec(channel as int) == (ChannelState {
                powered: false,
                ..old(self).state_spec(channel as int)
            }),
            Self::other_unchanged(*old(self), *final(self), channel as int),
    {
        match channel {
            0 => {
                self.dac0.power_down();
                self.channel0.powered = false;
            },
            _ => {
                self.dac1.power_down();
                self.channel1.powered = false;
            },
        }
    }

    pub fn get_i_set(&mut self, channel: usize) -> (r: i64)
        requires
            channel < 2,
        ensures
            *final(self) == *old(self),
            r == old(self).state_spec(channel as int).i_set,
    {
        match channel {
            0 => self.channel0.i_set,
            _ => self.channel1.i_set,
        }
    }

    pub fn get_max_v(&mut self, channel: usize) -> (r: i64)
        requires
            channel < 2,
        ensures
            *final(self) == *old(self),
            r == old(self).state_spec(channel as int).output_limits.max_v,
    {
        match channel {
            0 => self.channel0.output_limits.max_v,
            _ => self.channel1.output_limits.max_v,
        }
    }

    pub fn get_max_i_pos(&mut self, channel: usize) -> (r: i64)
        requires
            channel < 2,
        ensures
            *final(self) == *old(self),
            r == old(self).state_spec(channel as int).output_limits.max_i_pos,
    {
        match channel {
            0 => self.channel0.output_limits.max_i_pos,
            _ => self.channel1.output_limits.max_i_pos,
        }
    }

    pub fn get_max_i_neg(&mut self, channel: usize) -> (r: i64)
        requires
            channel < 2,
        ensures
            *final(self) == *old(self),
            r == old(self).state_spec(channel as int).output_limits.max_i_neg,
    {
        match channel {
            0 => self.channel0.output_limits.max_i_neg,
            _ => self.channel1.output_limits.max_i_neg,
        }
    }

    /// Whether PID control is engaged on any channel.
    pub fn pid_engaged(&mut self) -> (r: bool)
        ensures
            *final(self) == *old(self),
            r == (old(self).channel0.pid_engaged || old(self).channel1.pid_engaged),
    {
        self.channel0.pid_engaged || self.channel1.pid_engaged
    }

    /// The postfilter configured for an ADC channel.
    pub fn get_postfilter(&mut self, index: u8) -> (r: Option<PostFilter>)
        ensures
            Self::states_unchanged(*old(self), *final(self)),
    {
        self.adc.get_postfilter(index)
    }

    /// Configure or disable the postfilter of an ADC channel.
    pub fn set_postfilter(&mut self, index: u8, filter: Option<PostFilter>)
        ensures
            Self::states_unchanged(*old(self), *final(self)),
    {
        self.adc.set_postfilter(index, filter)
    }

    /// One averaged auxiliary-ADC reading of a monitoring quantity, in
    /// microvolts. Averaging over `avg_pt` conversions reduces the reading
    /// dispersion of the integrated ADC; the count is chosen per call site
    /// to trade stability against latency. Control state is untouched.
    pub fn adc_read(&mut self, channel: usize, adc_read_target: PinsAdcReadTarget, avg_pt: u16) -> (
        v: i64)
        requires
            channel < 2,
            1 <= avg_pt,
        ensures
            Self::states_unchanged(*old(self), *final(self)),
            0 <= v <= 65_535_000,
            v % 1000 == 0,
    {
        let mut samples: Vec<u16> = Vec::new();
        let mut i: u16 = 0;
        while i < avg_pt
            invariant
                i <= avg_pt,
                samples@.len() == i as int,
                Self::states_unchanged(*old(self), *self),
            decreases avg_pt - i,
        {
            let s: u16 = self.pins_adc.convert(channel as u8, adc_read_target);
            samples.push(s);
            i = i + 1;
        }
        let avg: u16 = average_code(&samples);
        let mv: u16 = self.pins_adc.sample_to_millivolts(avg);
        (mv as i64) * 1000
    }

    /// The TEC current setpoint center, in microvolts: the tracked driver
    /// reference voltage (an averaged sample), or a fixed override.
    pub fn get_center(&mut self, channel: usize) -> (v: i64)
        requires
            channel < 2,
        ensures
            Self::states_unchanged(*old(self), *final(self)),
            (old(self).state_spec(channel as int).center matches CenterPoint::Override(c) ==> v
                == c),
            0 <= v <= 65_535_000 || (old(self).state_spec(channel as int).center matches
                CenterPoint::Override(c) && v == c),
    {
        let center: CenterPoint = match channel {
            0 => self.channel0.center,
            _ => self.channel1.center,
        };
        match center {
            CenterPoint::VRef => self.adc_read(channel, PinsAdcReadTarget::VRef, 8),
            CenterPoint::Override(center_point) => center_point,
        }
    }

    /// Actual current through the TEC, in microamps, derived from the
    /// differential sense voltage over the 0.4 ohm measurement path and
    /// corrected for polarity.
    pub fn get_tec_i(&mut self, channel: usize) -> (r: i64)
        requires
            channel < 2,
        ensures
            Self::states_unchanged(*old(self), *final(self)),
            -164_000_000 <= r <= 164_000_000,
            exists|itec_uv: int, vref_uv: int|
                0 <= itec_uv <= 65_535_000 && 0 <= vref_uv <= 65_535_000 && r
                    == #[trigger] sense_current_spec(
                    itec_uv,
                    vref_uv,
                    old(self).state_spec(channel as int).polarity,
                ),
    {
        let itec: i64 = self.adc_read(channel, PinsAdcReadTarget::ITec, 16);
        let vref: i64 = self.adc_read(channel, PinsAdcReadTarget::VRef, 16);
        let polarity: Polarity = match channel {
            0 => self.channel0.polarity,
            _ => self.channel1.polarity,
        };
        current_from_sense(itec, vref, polarity)
    }

    /// Voltage across the TEC, in microvolts: the monitoring pin reading,
    /// offset-corrected and rescaled by the board's divider.
    pub fn get_tec_v(&mut self, channel: usize) -> (r: i64)
        requires
            channel < 2,
        ensures
            Self::states_unchanged(*old(self), *final(self)),
            -6_000_000 <= r <= 256_140_000,
            exists|raw_uv: int|
                0 <= raw_uv <= 65_535_000 && r == #[trigger] sense_voltage_spec(raw_uv),
    {
        let raw: i64 = self.adc_read(channel, PinsAdcReadTarget::VTec, 16);
        voltage_from_sense(raw)
    }

    /// The largest actual current magnitude over both channels.
    pub fn current_abs_max_tec_i(&mut self) -> (r: i64)
        ensures
            Self::states_unchanged(*old(self), *final(self)),
            0 <= r <= 164_000_000,
            exists|i0: int, i1: int|
                -164_000_000 <= i0 <= 164_000_000 && -164_000_000 <= i1 <= 164_000_000 && r
                    == #[trigger] max_abs_spec(i0, i1),
    {
        let i0: i64 = self.get_tec_i(0);
        let i1: i64 = self.get_tec_i(1);
        max_abs_current(i0, i1)
    }
}

/// The rail voltage a limit request achieves on a PWM counter with ceiling
/// `max`: the request becomes `floor(v * max / 3.3 V)` counts (clamped to
/// the ceiling), and the read-back voltage of those counts is
/// `counts * 3.3 V / max`. A ceiling of zero (no counter) reads back zero.
pub open spec fn pwm_readback_spec(v_uv: int, max: int) -> int {
    let value = (v_uv * max) / 3_300_000;
    let vc = if value > max {
        max
    } else {
        value
    };
    if max == 0 {
        0
    } else {
        (vc * 3_300_000) / max
    }
}

/// Apply a limit-rail voltage to one PWM output, in microvolts of the
/// microcontroller's analog reference span: the duty is quantized to the
/// PWM counter resolution and the actually-applied rail voltage is read
/// back from the applied counter value. The read-back is exactly
/// `pwm_readback_spec` of the counter ceiling the hardware reported, and
/// the floor chain never exceeds the request.
fn apply_limit_duty<P: PwmOutput>(pin: &mut P, v_uv: i64) -> (r: i64)
    requires
        0 <= v_uv <= 3_300_000,
    ensures
        0 <= r <= v_uv,
        exists|max: int| 0 <= max <= 65_535 && r == #[trigger] pwm_readback_spec(v_uv as int, max),
{
    let max: u16 = pin.get_max_duty();
    proof {
        crate::lemma_mul_bound(v_uv as int, max as int, 3_300_000, 65_535);
        assert(v_uv * (max as int) <= 3_300_000 * (max as int)) by (nonlinear_arith)
            requires
                0 <= v_uv <= 3_300_000,
                0 <= max,
        ;
        lemma_div_is_ordered(v_uv * (max as int), 3_300_000 * (max as int), 3_300_000);
        lemma_div_multiples_vanish(max as int, 3_300_000);
        lemma_div_pos_is_pos(v_uv * (max as int), 3_300_000);
    }
    let value64: i64 = (v_uv * (max as i64)) / 3_300_000;
    let value: u16 = if value64 > max as i64 {
        max
    } else {
        value64 as u16
    };
    pin.set_duty(value);
    let denom: i64 = if max == 0 {
        1
    } else {
        max as i64
    };
    proof {
        lemma_fundamental_div_mod(v_uv * (max as int), 3_300_000);
        if max != 0 {
            lemma_div_is_ordered(
                value as int * 3_300_000,
                max as int * 3_300_000,
                max as int,
            );
            lemma_div_multiples_vanish(3_300_000, max as int);
            // The floor chain undershoots: counts * 3.3 V stays below the
            // requested voltage times the ceiling.
            assert(value as int * 3_300_000 <= v_uv * (max as int));
            lemma_div_is_ordered(value as int * 3_300_000, v_uv * (max as int), max as int);
            assert(v_uv * (max as int) == max as int * v_uv) by (nonlinear_arith);
            lemma_div_multiples_vanish(v_uv as int, max as int);
        } else {
            assert(v_uv * (max as int) == 0) by (nonlinear_arith)
                requires
                    max as int == 0,
            ;
        }
        lemma_div_pos_is_pos(value as int * 3_300_000, denom as int);
    }
    let r: i64 = (value as i64 * 3_300_000) / denom;
    proof {
        assert(r == pwm_readback_spec(v_uv as int, max as int));
    }
    r
}

/// The sum of a batch of raw converter codes.
pub open spec fn sum_codes(s: Seq<u16>) -> int
    decreases s.len(),
{
    if s.len() == 0 {
        0
    } else {
        sum_codes(s.drop_last()) + s.last()
    }
}

/// The integer mean of a batch of raw converter codes: their sum divided by
/// the count, rounded down. This is the averaging step of every
/// auxiliary-ADC read, fixed here for whatever codes the converter
/// produced.
pub fn average_code(samples: &Vec<u16>) -> (avg: u16)
    requires
        1 <= samples.len() <= 65_535,
    ensures
        avg == sum_codes(samples@) / (samples@.len() as int),
{
    let mut sum: u64 = 0;
    let mut i: usize = 0;
    proof {
        assert(samples@.take(0) =~= Seq::<u16>::empty());
    }
    while i < samples.len()
        invariant
            i <= samples.len() <= 65_535,
            sum == sum_codes(samples@.take(i as int)),
            sum <= i as int * 65_535,
        decreases samples.len() - i,
    {
        proof {
            assert(samples@.take(i as int + 1).drop_last() =~= samples@.take(i as int));
            assert(samples@.take(i as int + 1).last() == samples@[i as int]);
        }
        sum = sum + samples[i] as u64;
        i = i + 1;
    }
    proof {
        assert(samples@.take(samples@.len() as int) =~= samples@);
        let n = samples@.len() as int;
        lemma_div_pos_is_pos(sum as int, n);
        lemma_div_is_ordered(sum as int, n * 65_535, n);
        lemma_div_multiples_vanish(65_535, n);
    }
    (sum / (samples.len() as u64)) as u16
}

/// The actual TEC current indicated by one pair of monitoring voltages:
/// the differential sense voltage over the 0.4 ohm measurement path
/// (microvolts over 400 milliohms gives five halves, in microamps),
/// negated under reversed polarity to stay in the user's sign frame.
pub open spec fn sense_current_spec(itec_uv: int, vref_uv: int, polarity: Polarity) -> int {
    polarity_sign(polarity) * div_trunc((itec_uv - vref_uv) * 5, 2)
}

/// Convert a sampled current-sense pair into the actual TEC current, in
/// microamps.
pub fn current_from_sense(itec_uv: i64, vref_uv: i64, polarity: Polarity) -> (r: i64)
    requires
        0 <= itec_uv <= 65_535_000,
        0 <= vref_uv <= 65_535_000,
    ensures
        r == sense_current_spec(itec_uv as int, vref_uv as int, polarity),
        -163_837_500 <= r <= 163_837_500,
{
    let diff: i64 = itec_uv - vref_uv;
    let amps: i64 = if diff >= 0 {
        (diff * 5) / 2
    } else {
        -((-diff * 5) / 2)
    };
    proof {
        if diff >= 0 {
            lemma_div_is_ordered(diff * 5, 327_675_000, 2);
            lemma_div_pos_is_pos(diff * 5, 2);
        } else {
            lemma_div_is_ordered(-diff * 5, 327_675_000, 2);
            lemma_div_pos_is_pos(-diff * 5, 2);
        }
        assert((diff as int) * 5 == -((-diff as int) * 5) || diff >= 0);
    }
    match polarity {
        Polarity::Normal => amps,
        Polarity::Reversed => -amps,
    }
}

/// The actual TEC voltage from its monitoring pin: offset by the 1.5 V
/// midpoint and rescaled by the board's 1:4 divider.
pub open spec fn sense_voltage_spec(raw_uv: int) -> int {
    (raw_uv - 1_500_000) * 4
}

/// Convert a sampled voltage-monitor reading into the actual TEC voltage,
/// in microvolts.
pub fn voltage_from_sense(raw_uv: i64) -> (r: i64)
    requires
        0 <= raw_uv <= 65_535_000,
    ensures
        r == sense_voltage_spec(raw_uv as int),
        -6_000_000 <= r <= 256_140_000,
{
    (raw_uv - 1_500_000) * 4
}

/// The larger magnitude of two currents.
pub open spec fn max_abs_spec(a: int, b: int) -> int {
    let aa = if a >= 0 {
        a
    } else {
        -a
    };
    let bb = if b >= 0 {
        b
    } else {
        -b
    };
    if aa >= bb {
        aa
    } else {
        bb
    }
}

/// The larger magnitude of two per-channel current readings.
pub fn max_abs_current(a: i64, b: i64) -> (r: i64)
    requires
        -1_000_000_000 <= a <= 1_000_000_000,
        -1_000_000_000 <= b <= 1_000_000_000,
    ensures
        r == max_abs_spec(a as int, b as int),
        0 <= r,
{
    let aa: i64 = if a >= 0 {
        a
    } else {
        -a
    };
    let bb: i64 = if b >= 0 {
        b
    } else {
        -b
    };
    if aa >= bb {
        aa
    } else {
        bb
    }
}

impl<A: AdcDevice, D: DacDevice, P: PwmOutput, S: AuxAdcSampler, T: DelayTimer> Channels<
    A,
    D,
    P,
    S,
    T,
> {
    /// Set the voltage limit: the request is clamped into the device range,
    /// stored, converted through the 1:4 divider into a PWM duty, and the
    /// achieved limit (as quantized by the PWM counter) is returned together
    /// with the device ceiling.
    pub fn set_max_v(&mut self, channel: usize, max_v: i64) -> (r: (i64, i64))
        requires
            channel < 2,
            old(self).wf(),
        ensures
            final(self).wf(),
            final(self).state_spec(channel as int) == (ChannelState {
                output_limits: OutputLimits {
                    max_v: clamp_i64(max_v as int, 0, MAX_TEC_V_UV as int) as i64,
                    ..old(self).state_spec(channel as int).output_limits
                },
                ..old(self).state_spec(channel as int)
            }),
            Self::other_unchanged(*old(self), *final(self), channel as int),
            r.1 == MAX_TEC_V_UV,
            0 <= r.0 <= clamp_i64(max_v as int, 0, MAX_TEC_V_UV as int),
            exists|maxd: int|
                0 <= maxd <= 65_535 && r.0 == 4 * #[trigger] pwm_readback_spec(
                    clamp_i64(max_v as int, 0, MAX_TEC_V_UV as int) / 4,
                    maxd,
                ),
    {
        let mv: i64 = if max_v > MAX_TEC_V_UV {
            MAX_TEC_V_UV
        } else if max_v < 0 {
            0
        } else {
            max_v
        };
        match channel {
            0 => self.channel0.output_limits.max_v = mv,
            _ => self.channel1.output_limits.max_v = mv,
        }
        let v_duty: i64 = mv / 4;
        let applied: i64 = match channel {
            0 => apply_limit_duty(&mut self.pwm.max_v0, v_duty),
            _ => apply_limit_duty(&mut self.pwm.max_v1, v_duty),
        };
        (applied * 4, MAX_TEC_V_UV)
    }

    /// Set the positive current limit magnitude: clamped, stored, converted
    /// through the sense-resistor gain into a PWM duty, and the achieved
    /// limit returned with the device ceiling. "Positive" means the same
    /// sign as commanded current, so the limit rails are swapped when the
    /// polarity is reversed.
    pub fn set_max_i_pos(&mut self, channel: usize, max_i_pos: i64) -> (r: (i64, i64))
        requires
            channel < 2,
            old(self).wf(),
        ensures
            final(self).wf(),
            final(self).state_spec(channel as int) == (ChannelState {
                output_limits: OutputLimits {
                    max_i_pos: clamp_i64(max_i_pos as int, 0, MAX_TEC_I_UA as int) as i64,
                    ..old(self).state_spec(channel as int).output_limits
                },
                ..old(self).state_spec(channel as int)
            }),
            Self::other_unchanged(*old(self), *final(self), channel as int),
            r.1 == MAX_TEC_I_UA,
            0 <= r.0 <= clamp_i64(max_i_pos as int, 0, MAX_TEC_I_UA as int),
            exists|maxd: int|
                0 <= maxd <= 65_535 && r.0 == 2 * #[trigger] pwm_readback_spec(
                    clamp_i64(max_i_pos as int, 0, MAX_TEC_I_UA as int) / 2,
                    maxd,
                ),
    {
        let reversed: bool = match channel {
            0 => matches!(self.channel0.polarity, Polarity::Reversed),
            _ => matches!(self.channel1.polarity, Polarity::Reversed),
        };
        let ic: i64 = if max_i_pos > MAX_TEC_I_UA {
            MAX_TEC_I_UA
        } else if max_i_pos < 0 {
            0
        } else {
            max_i_pos
        };
        match channel {
            0 => self.channel0.output_limits.max_i_pos = ic,
            _ => self.channel1.output_limits.max_i_pos = ic,
        }
        let v_duty: i64 = ic / 2;
        let applied: i64 = match (channel, reversed) {
            (0, false) => apply_limit_duty(&mut self.pwm.max_i_pos0, v_duty),
            (0, true) => apply_limit_duty(&mut self.pwm.max_i_neg0, v_duty),
            (_, false) => apply_limit_duty(&mut self.pwm.max_i_pos1, v_duty),
            (_, true) => apply_limit_duty(&mut self.pwm.max_i_neg1, v_duty),
        };
        (applied * 2, MAX_TEC_I_UA)
    }

    /// Set the negative current limit magnitude; the mirror image of
    /// `set_max_i_pos`.
    pub fn set_max_i_neg(&mut self, channel: usize, max_i_neg: i64) -> (r: (i64, i64))
        requires
            channel < 2,
            old(self).wf(),
        ensures
            final(self).wf(),
            final(self).state_spec(channel as int) == (ChannelState {
                output_limits: OutputLimits {
                    max_i_neg: clamp_i64(max_i_neg as int, 0, MAX_TEC_I_UA as int) as i64,
                    ..old(self).state_spec(channel as int).output_limits
                },
                ..old(self).state_spec(channel as int)
            }),
            Self::other_unchanged(*old(self), *final(self), channel as int),
            r.1 == MAX_TEC_I_UA,
            0 <= r.0 <= clamp_i64(max_i_neg as int, 0, MAX_TEC_I_UA as int),
            exists|maxd: int|
                0 <= maxd <= 65_535 && r.0 == 2 * #[trigger] pwm_readback_spec(
                    clamp_i64(max_i_neg as int, 0, MAX_TEC_I_UA as int) / 2,
                    maxd,
                ),
    {
        let reversed: bool = match channel {
            0 => matches!(self.channel0.polarity, Polarity::Reversed),
            _ => matches!(self.channel1.polarity, Polarity::Reversed),
        };
        let ic: i64 = if max_i_neg > MAX_TEC_I_UA {
            MAX_TEC_I_UA
        } else if max_i_neg < 0 {
            0
        } else {
            max_i_neg
        };
        match channel {
            0 => self.channel0.output_limits.max_i_neg = ic,
            _ => self.channel1.output_limits.max_i_neg = ic,
        }
        let v_duty: i64 = ic / 2;
        let applied: i64 = match (channel, reversed) {
            (0, false) => apply_limit_duty(&mut self.pwm.max_i_neg0, v_duty),
            (0, true) => apply_limit_duty(&mut self.pwm.max_i_pos0, v_duty),
            (_, false) => apply_limit_duty(&mut self.pwm.max_i_neg1, v_duty),
            (_, true) => apply_limit_duty(&mut self.pwm.max_i_pos1, v_duty),
        };
        (applied * 2, MAX_TEC_I_UA)
    }

    /// Change a channel's polarity. A no-op when unchanged; otherwise the
    /// new sign convention is stored and the current setpoint and both
    /// current limits are re-applied under it, so no stale, wrongly-signed
    /// output survives the change.
    pub fn set_polarity(&mut self, channel: usize, polarity: Polarity)
        requires
            channel < 2,
            old(self).wf(),
        ensures
            final(self).wf(),
            Self::other_unchanged(*old(self), *final(self), channel as int),
            (old(self).state_spec(channel as int).polarity == polarity ==> Self::states_unchanged(
                *old(self),
                *final(self),
            )),
            (old(self).state_spec(channel as int).polarity != polarity ==> final(self).state_spec(
                channel as int,
            ) == set_i_outcome(
                ChannelState { polarity, ..old(self).state_spec(channel as int) },
                old(self).state_spec(channel as int).i_set as int,
            ).0),
    {
        let current: Polarity = match channel {
            0 => self.channel0.polarity,
            _ => self.channel1.polarity,
        };
        if current != polarity {
            let i_set: i64 = self.get_i_set(channel);
            let max_i_pos: i64 = self.get_max_i_pos(channel);
            let max_i_neg: i64 = self.get_max_i_neg(channel);
            match channel {
                0 => self.channel0.polarity = polarity,
                _ => self.channel1.polarity = polarity,
            }
            self.set_i(channel, i_set);
            self.set_max_i_pos(channel, max_i_pos);
            self.set_max_i_neg(channel, max_i_neg);
        }
    }
}

/// What one settled calibration measurement decides.
#[derive(Clone, Copy, Debug, PartialEq, Eq, Structural)]
pub enum CalibrationStep {
    /// The feedback exceeded the target: on a monotonically increasing DAC
    /// transfer the sweep has overshot, and this step size is done.
    Overshoot,
    /// The error is nonnegative and strictly smaller than the best seen so
    /// far: record this candidate as the new best.
    Improved,
    /// Neither: keep the best so far and keep sweeping.
    Unchanged,
}

/// The accept/stop rule of the calibration search on one feedback sample.
pub open spec fn calibration_step_spec(
    target_uv: int,
    feedback_uv: int,
    best_error_uv: int,
) -> CalibrationStep {
    if target_uv - feedback_uv < 0 {
        CalibrationStep::Overshoot
    } else if target_uv - feedback_uv < best_error_uv {
        CalibrationStep::Improved
    } else {
        CalibrationStep::Unchanged
    }
}

/// Decide one calibration candidate from its settled feedback: stop on
/// overshoot, record a strict improvement, keep sweeping otherwise.
pub fn calibration_step(target_uv: i64, feedback_uv: i64, best_error_uv: i64) -> (r:
    CalibrationStep)
    requires
        0 <= target_uv <= 65_535_000,
        0 <= feedback_uv <= 65_535_000,
    ensures
        r == calibration_step_spec(target_uv as int, feedback_uv as int, best_error_uv as int),
        (r is Improved ==> 0 <= target_uv - feedback_uv < best_error_uv),
        (r is Overshoot ==> feedback_uv > target_uv),
{
    let error: i64 = target_uv - feedback_uv;
    if error < 0 {
        CalibrationStep::Overshoot
    } else if error < best_error_uv {
        CalibrationStep::Improved
    } else {
        CalibrationStep::Unchanged
    }
}

/// The channel state after one control tick services a raw sample: the
/// sample is recorded (the sentinel clears the reading), the PID history
/// moves when a temperature is available, and when PID is engaged the
/// output becomes the current setpoint with the driver powered up - or,
/// without a temperature, the driver is powered down rather than left at a
/// stale setpoint.
pub open spec fn poll_outcome(s: ChannelState, now: int, raw: u32) -> ChannelState {
    let s1 = ChannelState {
        adc_data: if raw == ad7172::MAX_VALUE {
            None
        } else {
            Some(raw)
        },
        adc_time: now as u64,
        adc_interval: if now >= s.adc_time {
            (now - s.adc_time) as u64
        } else {
            0u64
        },
        ..s
    };
    match s1.temperature_spec() {
        Some(t) => {
            let s2 = ChannelState { pid: pid::updated(s1.pid, t - 273_150), ..s1 };
            if s2.pid_engaged {
                let s3 = set_i_outcome(s2, pid::update_output(s1.pid, t - 273_150)).0;
                ChannelState { powered: true, ..s3 }
            } else {
                s2
            }
        },
        None => {
            if s1.pid_engaged {
                ChannelState { powered: false, ..s1 }
            } else {
                s1
            }
        },
    }
}

impl<A: AdcDevice, D: DacDevice, P: PwmOutput, S: AuxAdcSampler, T: DelayTimer> Channels<
    A,
    D,
    P,
    S,
    T,
> {
    /// One non-blocking control tick: if a conversion is ready, record it on
    /// its channel and run the PID stage; the serviced channel index is
    /// returned. The fail-safe is part of the contract: when the serviced
    /// channel ends up without a reading while PID is engaged, its driver is
    /// powered down, never left at the previous setpoint.
    pub fn poll_adc(&mut self, instant: u64) -> (r: Option<u8>)
        requires
            old(self).wf(),
        ensures
            final(self).wf(),
            (r is None ==> Self::states_unchanged(*old(self), *final(self))),
            (r matches Some(ch) ==> ch < 2 && Self::other_unchanged(
                *old(self),
                *final(self),
                ch as int,
            ) && (exists|raw: u32|
                final(self).state_spec(ch as int) == poll_outcome(
                    old(self).state_spec(ch as int),
                    instant as int,
                    raw,
                ))),
            (r matches Some(ch) ==> ((final(self).state_spec(ch as int).temperature_spec() is None
                && old(self).state_spec(ch as int).pid_engaged) ==> !final(self).state_spec(
                ch as int,
            ).powered)),
    {
        let ready: Option<u8> = self.adc.data_ready();
        match ready {
            None => None,
            Some(channel) => {
                if channel >= 2 {
                    return None;
                }
                let data: u32 = self.adc.read_data();
                let ch: usize = channel as usize;
                let ghost pre = self.state_spec(ch as int);
                match ch {
                    0 => self.channel0.update(instant, data),
                    _ => self.channel1.update(instant, data),
                }
                let pid_output: Option<i64> = match ch {
                    0 => self.channel0.update_pid(),
                    _ => self.channel1.update_pid(),
                };
                let engaged: bool = match ch {
                    0 => self.channel0.pid_engaged,
                    _ => self.channel1.pid_engaged,
                };
                match pid_output {
                    Some(out) => {
                        if engaged {
                            // Forward PID output to the current setpoint.
                            self.set_i(ch, out);
                            self.power_up(ch);
                        }
                    },
                    None => {
                        if engaged {
                            self.power_down(ch);
                        }
                    },
                }
                proof {
                    assert(self.state_spec(ch as int) == poll_outcome(pre, instant as int, data));
                }
                Some(channel)
            },
        }
    }

    /// Calibrate the DAC output against the driver chip's reference voltage
    /// to cancel the zero-current offset. The target is the reference input
    /// averaged over 50 samples; then, for decreasing power-of-two step
    /// sizes, DAC codes are swept from the best code so far, each settled
    /// and measured over 64 averaged samples. A negative error stops the
    /// sweep at that step size (the DAC transfer function is taken as
    /// monotonically increasing, so overshoot is final); an improving error
    /// records the code and its nominal voltage as the new center. The DAC
    /// is reset to zero afterwards. Run once per channel at boot: repeating
    /// it would couple sampling noise into the live control signal.
    pub fn calibrate_dac_value(&mut self, channel: usize)
        requires
            channel < 2,
            old(self).wf(),
        ensures
            final(self).wf(),
            Self::other_unchanged(*old(self), *final(self), channel as int),
            final(self).state_spec(channel as int) == (ChannelState {
                vref_meas: final(self).state_spec(channel as int).vref_meas,
                dac_value: 0i64,
                ..old(self).state_spec(channel as int)
            }),
            0 <= final(self).state_spec(channel as int).vref_meas <= DAC_OUT_V_MAX_UV,
            final(self).state_spec(channel as int).vref_meas == old(self).state_spec(
                channel as int,
            ).vref_meas || (exists|code: int|
                1 <= code <= DAC_MAX_CODE && final(self).state_spec(channel as int).vref_meas
                    == #[trigger] dac_voltage_spec(code)),
    {
        let mut target_sum: i64 = 0;
        let mut n: u32 = 0;
        while n < 50
            invariant
                old(self).wf(),
                channel < 2,
                n <= 50,
                0 <= target_sum <= n as int * 65_535_000,
                Self::states_unchanged(*old(self), *self),
            decreases 50 - n,
        {
            let c: i64 = self.get_center(channel);
            proof {
                assert(0 <= c <= 65_535_000);
            }
            target_sum = target_sum + c;
            n = n + 1;
        }
        let target_voltage: i64 = target_sum / 50;
        proof {
            lemma_div_pos_is_pos(target_sum as int, 50);
            lemma_div_is_ordered(target_sum as int, 3_276_750_000, 50);
        }
        let mut start_value: u32 = 1;
        let mut best_error: i64 = 100_000_000;
        let mut step_size: u32 = 131_072;
        while step_size >= 32
            invariant
                old(self).wf(),
                self.wf(),
                channel < 2,
                1 <= start_value <= 262_143,
                16 <= step_size <= 131_072,
                0 <= target_voltage <= 65_535_000,
                Self::other_unchanged(*old(self), *self, channel as int),
                self.state_spec(channel as int) == (ChannelState {
                    vref_meas: self.state_spec(channel as int).vref_meas,
                    ..old(self).state_spec(channel as int)
                }),
                self.state_spec(channel as int).vref_meas == old(self).state_spec(
                    channel as int,
                ).vref_meas || (exists|code: int|
                    1 <= code <= DAC_MAX_CODE && self.state_spec(channel as int).vref_meas
                        == #[trigger] dac_voltage_spec(code)),
            decreases step_size,
        {
            let mut value: u32 = start_value;
            while value <= 262_143
                invariant
                    old(self).wf(),
                    self.wf(),
                    channel < 2,
                    1 <= value,
                    1 <= start_value <= 262_143,
                    32 <= step_size <= 131_072,
                    0 <= target_voltage <= 65_535_000,
                    Self::other_unchanged(*old(self), *self, channel as int),
                    self.state_spec(channel as int) == (ChannelState {
                        vref_meas: self.state_spec(channel as int).vref_meas,
                        ..old(self).state_spec(channel as int)
                    }),
                    self.state_spec(channel as int).vref_meas == old(self).state_spec(
                        channel as int,
                    ).vref_meas || (exists|code: int|
                        1 <= code <= DAC_MAX_CODE && self.state_spec(channel as int).vref_meas
                            == #[trigger] dac_voltage_spec(code)),
                decreases 393_216 - value,
            {
                match channel {
                    0 => self.dac0.set(value),
                    _ => self.dac1.set(value),
                }
                self.delay.sleep_ms(10);
                let dac_feedback: i64 = self.adc_read(channel, PinsAdcReadTarget::DacVfb, 64);
                match calibration_step(target_voltage, dac_feedback, best_error) {
                    CalibrationStep::Overshoot => {
                        break ;
                    },
                    CalibrationStep::Improved => {
                        best_error = target_voltage - dac_feedback;
                        start_value = value;
                        proof {
                            lemma_div_pos_is_pos(
                                value as int * DAC_OUT_V_MAX_UV,
                                DAC_MAX_CODE as int,
                            );
                            lemma_div_is_ordered(
                                value as int * DAC_OUT_V_MAX_UV,
                                262_143int * 3_000_000,
                                DAC_MAX_CODE as int,
                            );
                        }
                        let vref: i64 = ((value as i64) * DAC_OUT_V_MAX_UV) / DAC_MAX_CODE;
                        proof {
                            assert(vref == dac_voltage_spec(value as int));
                        }
                        match channel {
                            0 => self.channel0.vref_meas = vref,
                            _ => self.channel1.vref_meas = vref,
                        }
                    },
                    CalibrationStep::Unchanged => {},
                }
                value = value + step_size;
            }
            step_size = step_size / 2;
        }
        // Reset
        self.set_dac(channel, 0);
    }

    /// The state a channel holds right after boot: the defaults, the
    /// calibration-measured center voltage `v`, and a zero-current setpoint
    /// commanded through the DAC.
    pub open spec fn boot_state_spec(adc_calibration: AdcCalibration, v: i64) -> ChannelState {
        set_i_outcome(
            ChannelState {
                vref_meas: v,
                dac_value: 0i64,
                ..ChannelState::default_spec(adc_calibration)
            },
            0,
        ).0
    }

    /// Build the engine: both channel states at their defaults, then a
    /// one-shot DAC calibration and a zero-current setpoint per channel.
    pub fn new(
        adc: A,
        dac0: D,
        dac1: D,
        pins_adc: S,
        pwm: PwmLimits<P>,
        delay: T,
        adc_calibration0: AdcCalibration,
        adc_calibration1: AdcCalibration,
    ) -> (r: Self)
        requires
            adc_calibration0.wf(),
            adc_calibration1.wf(),
        ensures
            r.wf(),
            !r.channel0.pid_engaged,
            !r.channel1.pid_engaged,
            (r.channel0.adc_data is None),
            (r.channel1.adc_data is None),
            r.channel0.i_set == 0i64,
            r.channel1.i_set == 0i64,
            r.channel0.polarity == Polarity::Normal,
            r.channel1.polarity == Polarity::Normal,
            exists|v: i64|
                0 <= v <= DAC_OUT_V_MAX_UV && r.channel0 == #[trigger] Self::boot_state_spec(
                    adc_calibration0,
                    v,
                ),
            exists|v: i64|
                0 <= v <= DAC_OUT_V_MAX_UV && r.channel1 == #[trigger] Self::boot_state_spec(
                    adc_calibration1,
                    v,
                ),
    {
        let channel0 = ChannelState::new(adc_calibration0);
        let channel1 = ChannelState::new(adc_calibration1);
        let mut channels = Channels { channel0, channel1, adc, dac0, dac1, pins_adc, pwm, delay };
        channels.calibrate_dac_value(0);
        let ghost mid0 = channels.channel0;
        channels.set_i(0, 0);
        proof {
            assert(channels.channel0 == Self::boot_state_spec(adc_calibration0, mid0.vref_meas));
        }
        channels.calibrate_dac_value(1);
        let ghost mid1 = channels.channel1;
        channels.set_i(1, 0);
        proof {
            assert(channels.channel1 == Self::boot_state_spec(adc_calibration1, mid1.vref_meas));
        }
        channels
    }
}

/// A per-channel snapshot of everything the reporting layer publishes.
#[derive(Clone, Copy, Debug, PartialEq, Eq, Structural)]
pub struct Report {
    pub channel: usize,
    /// Time of the last sample, in milliseconds.
    pub time: u64,
    /// Interval between the last two samples, in milliseconds.
    pub interval: u64,
    /// ADC input voltage, in microvolts; absent without a thermistor.
    pub adc: Option<i64>,
    /// Sense resistance, in milliohms; absent without a thermistor.
    pub sens: Option<i64>,
    /// Temperature, in millidegrees Celsius; absent without a thermistor.
    pub temperature: Option<i64>,
    pub pid_engaged: bool,
    /// Commanded current, in microamps.
    pub i_set: i64,
    /// Voltage written to the DAC, in microvolts.
    pub dac_value: i64,
    /// Measured DAC feedback voltage, in microvolts.
    pub dac_feedback: i64,
    /// Raw current-sense monitoring voltage, in microvolts.
    pub i_tec: i64,
    /// Actual actuator current, in microamps.
    pub tec_i: i64,
    /// Actual actuator voltage, in microvolts.
    pub tec_u_meas: i64,
    /// Last PID output, in microamps.
    pub pid_output: i64,
}

/// A per-channel output configuration summary.
#[derive(Clone, Copy, Debug, PartialEq, Eq, Structural)]
pub struct OutputSummary {
    pub channel: usize,
    pub center: CenterPoint,
    /// Commanded current, in microamps.
    pub i_set: i64,
    /// Voltage limit, in microvolts.
    pub max_v: i64,
    /// Positive current limit, in microamps.
    pub max_i_pos: i64,
    /// Negative current limit, in microamps.
    pub max_i_neg: i64,
    pub polarity: Polarity,
}

/// A per-channel postfilter summary.
#[derive(Clone, Copy, Debug, PartialEq, Eq, Structural)]
pub struct PostFilterSummary {
    pub channel: usize,
    /// Selected output data rate, in thousandths of a sample per second.
    pub rate: Option<u32>,
}

/// A per-channel temperature-model summary.
#[derive(Clone, Copy, Debug, PartialEq, Eq, Structural)]
pub struct BParameterSummary {
    pub channel: usize,
    pub params: b_parameter::Parameters,
}

impl<A: AdcDevice, D: DacDevice, P: PwmOutput, S: AuxAdcSampler, T: DelayTimer> Channels<
    A,
    D,
    P,
    S,
    T,
> {
    /// Assemble a channel's report: a read-only projection of the state
    /// plus derived auxiliary-ADC reads. Control state is not mutated.
    pub fn report(&mut self, channel: usize) -> (r: Report)
        requires
            channel < 2,
            old(self).wf(),
        ensures
            Self::states_unchanged(*old(self), *final(self)),
            ({
                let s = old(self).state_spec(channel as int);
                &&& r.channel == channel
                &&& r.time == s.adc_time
                &&& r.interval == s.adc_interval
                &&& r.adc == (match s.adc_spec() {
                    None => Option::<i64>::None,
                    Some(x) => Some(x as i64),
                })
                &&& r.sens == (match s.sens_spec() {
                    None => Option::<i64>::None,
                    Some(x) => Some(x as i64),
                })
                &&& r.temperature == (match s.temperature_spec() {
                    None => Option::<i64>::None,
                    Some(x) => Some((x - 273_150) as i64),
                })
                &&& r.pid_engaged == s.pid_engaged
                &&& r.i_set == s.i_set
                &&& r.dac_value == s.dac_value
                &&& r.pid_output == s.pid.y1
                &&& (exists|itec_uv: int, vref_uv: int|
                    0 <= itec_uv <= 65_535_000 && 0 <= vref_uv <= 65_535_000 && r.tec_i
                        == #[trigger] sense_current_spec(itec_uv, vref_uv, s.polarity))
                &&& (exists|raw_uv: int|
                    0 <= raw_uv <= 65_535_000 && r.tec_u_meas == #[trigger] sense_voltage_spec(
                        raw_uv,
                    ))
            }),
    {
        let i_set: i64 = self.get_i_set(channel);
        let i_tec: i64 = self.adc_read(channel, PinsAdcReadTarget::ITec, 16);
        let tec_i: i64 = self.get_tec_i(channel);
        let dac_feedback: i64 = self.adc_read(channel, PinsAdcReadTarget::DacVfb, 1);
        let tec_u_meas: i64 = self.get_tec_v(channel);
        let adc: Option<i64> = match channel {
            0 => self.channel0.get_adc(),
            _ => self.channel1.get_adc(),
        };
        let sens: Option<i64> = match channel {
            0 => self.channel0.get_sens(),
            _ => self.channel1.get_sens(),
        };
        let temperature_mk: Option<i64> = match channel {
            0 => self.channel0.get_temperature(),
            _ => self.channel1.get_temperature(),
        };
        let temperature: Option<i64> = match temperature_mk {
            None => None,
            Some(t) => Some(t - 273_150),
        };
        let (time, interval, pid_engaged, dac_value, pid_output): (u64, u64, bool, i64, i64) =
            match channel {
            0 => (
                self.channel0.get_adc_time(),
                self.channel0.get_adc_interval(),
                self.channel0.pid_engaged,
                self.channel0.dac_value,
                self.channel0.pid.y1,
            ),
            _ => (
                self.channel1.get_adc_time(),
                self.channel1.get_adc_interval(),
                self.channel1.pid_engaged,
                self.channel1.dac_value,
                self.channel1.pid.y1,
            ),
        };
        Report {
            channel,
            time,
            interval,
            adc,
            sens,
            temperature,
            pid_engaged,
            i_set,
            dac_value,
            dac_feedback,
            i_tec,
            tec_i,
            tec_u_meas,
            pid_output,
        }
    }

    /// Assemble a channel's output configuration summary; read-only.
    pub fn output_summary(&mut self, channel: usize) -> (r: OutputSummary)
        requires
            channel < 2,
            old(self).wf(),
        ensures
            *final(self) == *old(self),
            r == (OutputSummary {
                channel,
                center: old(self).state_spec(channel as int).center,
                i_set: old(self).state_spec(channel as int).i_set,
                max_v: old(self).state_spec(channel as int).output_limits.max_v,
                max_i_pos: old(self).state_spec(channel as int).output_limits.max_i_pos,
                max_i_neg: old(self).state_spec(channel as int).output_limits.max_i_neg,
                polarity: old(self).state_spec(channel as int).polarity,
            }),
    {
        match channel {
            0 => OutputSummary {
                channel,
                center: self.channel0.center,
                i_set: self.channel0.i_set,
                max_v: self.channel0.output_limits.max_v,
                max_i_pos: self.channel0.output_limits.max_i_pos,
                max_i_neg: self.channel0.output_limits.max_i_neg,
                polarity: self.channel0.polarity,
            },
            _ => OutputSummary {
                channel,
                center: self.channel1.center,
                i_set: self.channel1.i_set,
                max_v: self.channel1.output_limits.max_v,
                max_i_pos: self.channel1.output_limits.max_i_pos,
                max_i_neg: self.channel1.output_limits.max_i_neg,
                polarity: self.channel1.polarity,
            },
        }
    }

    /// Assemble a channel's postfilter summary; control state untouched.
    pub fn postfilter_summary(&mut self, channel: usize) -> (r: PostFilterSummary)
        requires
            channel < 2,
        ensures
            Self::states_unchanged(*old(self), *final(self)),
            r.channel == channel,
    {
        let filter: Option<PostFilter> = self.get_postfilter(channel as u8);
        let rate: Option<u32> = match filter {
            None => None,
            Some(f) => f.output_rate(),
        };
        PostFilterSummary { channel, rate }
    }

    /// Assemble a channel's temperature-model summary; read-only.
    pub fn b_parameter_summary(&mut self, channel: usize) -> (r: BParameterSummary)
        requires
            channel < 2,
        ensures
            *final(self) == *old(self),
            r == (BParameterSummary {
                channel,
                params: old(self).state_spec(channel as int).bp,
            }),
    {
        match channel {
            0 => BParameterSummary { channel, params: self.channel0.bp },
            _ => BParameterSummary { channel, params: self.channel1.bp },
        }
    }
}

} // verus!
