//! Per-channel control state: the last ADC sample and its timing, the
//! setpoint, limits, polarity, PID instance and temperature-model
//! parameters.

use vstd::prelude::*;

verus! {

use vstd::arithmetic::div_mod::{lemma_div_is_ordered, lemma_div_is_ordered_by_denominator,
    lemma_div_nonincreasing, lemma_div_pos_is_pos};
use crate::ad7172;
use crate::b_parameter;
use crate::commands::{CenterPoint, Polarity};
use crate::config::OutputLimits;
use crate::lemma_mul_bound;
use crate::pid;
use crate::thermo;

/// Input divider resistance above the thermistor, in milliohms (two 5.1 k
/// resistors in series).
pub const R_INNER_MOHM: i64 = 10_200_000;

/// Half the analog supply: the reference against which the thermistor
/// divider is measured, in microvolts.
pub const VREF_SENS_UV: i64 = 1_650_000;

/// Linear calibration of the thermistor ADC: the voltage of the full 24-bit
/// code span, in microvolts.
#[derive(Clone, Copy, Debug, PartialEq, Eq, Structural)]
pub struct AdcCalibration {
    pub full_scale_uv: i64,
}

impl AdcCalibration {
    pub open spec fn wf(self) -> bool {
        1 <= self.full_scale_uv <= 10_000_000
    }

    /// The input voltage a raw code stands for:
    /// `code * full_scale / 2^24` microvolts.
    pub open spec fn convert_spec(self, raw: int) -> int {
        (raw * self.full_scale_uv) / 0x100_0000
    }

    pub fn convert_data(&self, raw: u32) -> (v: i64)
        requires
            self.wf(),
        ensures
            v == self.convert_spec(raw as int),
            0 <= v <= 256 * self.full_scale_uv,
    {
        proof {
            let fs = self.full_scale_uv as int;
            lemma_mul_bound(raw as int, fs, 0x1_0000_0000, 10_000_000);
            lemma_div_pos_is_pos(raw as int * fs, 0x100_0000);
            assert(raw as int * fs <= 0x1_0000_0000 * fs) by (nonlinear_arith)
                requires
                    raw <= 0xFFFF_FFFFu32,
                    fs >= 0,
            ;
            lemma_div_is_ordered(raw as int * fs, 0x1_0000_0000 * fs, 0x100_0000);
            assert(0x1_0000_0000 * fs == 0x100_0000 * (256 * fs)) by (nonlinear_arith);
            vstd::arithmetic::div_mod::lemma_div_multiples_vanish(256 * fs, 0x100_0000);
        }
        let w: u64 = (raw as u64) * (self.full_scale_uv as u64);
        let v: u64 = w / 0x100_0000;
        v as i64
    }
}

/// Per-channel aggregate state.
pub struct ChannelState {
    /// Last raw ADC code, or absent when the sample equalled the
    /// "no thermistor connected" sentinel.
    pub adc_data: Option<u32>,
    pub adc_calibration: AdcCalibration,
    /// Monotonic time of the last sample, in milliseconds.
    pub adc_time: u64,
    /// Time between the last two samples, in milliseconds.
    pub adc_interval: u64,
    /// The zero-current bias point selection.
    pub center: CenterPoint,
    /// Last physical voltage written to the actuator DAC, in microvolts.
    pub dac_value: i64,
    /// Last commanded current, in microamps.
    pub i_set: i64,
    pub output_limits: OutputLimits,
    /// Whether PID output drives the current setpoint.
    pub pid_engaged: bool,
    pub pid: pid::Controller,
    /// Temperature-model parameters.
    pub bp: b_parameter::Parameters,
    pub polarity: Polarity,
    /// Calibration-measured DAC voltage of zero net actuator output,
    /// in microvolts.
    pub vref_meas: i64,
    /// Last commanded state of the actuator driver's enable line.
    pub powered: bool,
}

impl ChannelState {
    /// The state invariant: every physical quantity within its device range
    /// and every parameter set within its arithmetic domain.
    pub open spec fn wf(self) -> bool {
        &&& self.adc_calibration.wf()
        &&& (self.adc_data matches Some(raw) ==> raw != ad7172::MAX_VALUE)
        &&& self.center.wf()
        &&& 0 <= self.dac_value <= 3_000_000
        &&& -crate::MAX_TEC_I_UA <= self.i_set <= crate::MAX_TEC_I_UA
        &&& self.output_limits.wf()
        &&& self.pid.wf()
        &&& self.bp.wf()
        &&& 0 <= self.vref_meas <= 3_000_000
    }

    /// The state every channel starts from: no reading, a 10 Hz nominal
    /// interval, tracked reference center, zero outputs and limits, PID
    /// disengaged at default parameters, the default thermistor model,
    /// normal polarity, and the nominal 1.5 V center voltage.
    pub open spec fn default_spec(adc_calibration: AdcCalibration) -> ChannelState {
        ChannelState {
            adc_data: None,
            adc_calibration,
            adc_time: 0u64,
            adc_interval: 100u64,
            center: CenterPoint::VRef,
            dac_value: 0i64,
            i_set: 0i64,
            output_limits: OutputLimits { max_v: 0i64, max_i_pos: 0i64, max_i_neg: 0i64 },
            pid_engaged: false,
            pid: pid::Controller {
                parameters: pid::Parameters {
                    kp: 0i64,
                    ki: 0i64,
                    kd: 0i64,
                    output_min: -2_000_000i64,
                    output_max: 2_000_000i64,
                },
                target: 0i64,
                u1: 0i64,
                x1: 0i64,
                x2: 0i64,
                y1: 0i64,
            },
            bp: b_parameter::Parameters { t0: 298_150i64, r0: 10_000_000i64, b: 3_800_000i64 },
            polarity: Polarity::Normal,
            vref_meas: 1_500_000i64,
            powered: false,
        }
    }

    pub fn new(adc_calibration: AdcCalibration) -> (r: ChannelState)
        requires
            adc_calibration.wf(),
        ensures
            r.wf(),
            r == Self::default_spec(adc_calibration),
    {
        ChannelState {
            adc_data: None,
            adc_calibration,
            adc_time: 0,
            // default: 10 Hz
            adc_interval: 100,
            center: CenterPoint::VRef,
            dac_value: 0,
            i_set: 0,
            output_limits: OutputLimits { max_v: 0, max_i_pos: 0, max_i_neg: 0 },
            pid_engaged: false,
            pid: pid::Controller::new(
                pid::Parameters {
                    kp: 0,
                    ki: 0,
                    kd: 0,
                    output_min: -2_000_000,
                    output_max: 2_000_000,
                },
            ),
            bp: b_parameter::Parameters { t0: 298_150, r0: 10_000_000, b: 3_800_000 },
            polarity: Polarity::Normal,
            vref_meas: 1_500_000,
            powered: false,
        }
    }

    /// Record one raw sample: the full-scale sentinel means no thermistor is
    /// plugged into the ADC and clears the reading; the sample interval is
    /// the time since the previous sample.
    pub fn update(&mut self, now: u64, adc_data: u32)
        requires
            old(self).wf(),
        ensures
            final(self).wf(),
            final(self).adc_data == (if adc_data == ad7172::MAX_VALUE {
                Option::<u32>::None
            } else {
                Some(adc_data)
            }),
            final(self).adc_time == now,
            final(self).adc_interval == (if now >= old(self).adc_time {
                (now - old(self).adc_time) as u64
            } else {
                0u64
            }),
            *final(self) == (ChannelState {
                adc_data: final(self).adc_data,
                adc_time: final(self).adc_time,
                adc_interval: final(self).adc_interval,
                ..*old(self)
            }),
    {
        self.adc_data = if adc_data == ad7172::MAX_VALUE {
            // this means there is no thermistor plugged into the ADC.
            None
        } else {
            Some(adc_data)
        };
        self.adc_interval = if now >= self.adc_time {
            now - self.adc_time
        } else {
            0
        };
        self.adc_time = now;
    }

    /// The ADC input voltage of the last sample, in microvolts.
    pub open spec fn adc_spec(self) -> Option<int> {
        match self.adc_data {
            None => None,
            Some(raw) => Some(self.adc_calibration.convert_spec(raw as int)),
        }
    }

    pub fn get_adc(&self) -> (v: Option<i64>)
        requires
            self.wf(),
        ensures
            v == match self.adc_spec() {
                None => Option::<i64>::None,
                Some(x) => Some(x as i64),
            },
            (self.adc_spec() matches Some(x) ==> 0 <= x <= 2_560_000_000),
    {
        match self.adc_data {
            None => None,
            Some(raw) => Some(self.adc_calibration.convert_data(raw)),
        }
    }

    /// The thermistor resistance behind the input divider, in milliohms:
    /// `R_INNER * v / (VREF_SENS - v)`. Absent when there is no sample or
    /// when the voltage leaves the divider's meaningful range.
    pub open spec fn sens_spec(self) -> Option<int> {
        match self.adc_spec() {
            None => None,
            Some(v) => if 1 <= v < VREF_SENS_UV {
                Some((R_INNER_MOHM * v) / (VREF_SENS_UV - v))
            } else {
                None
            },
        }
    }

    /// Get the thermistor input resistance.
    pub fn get_sens(&self) -> (r: Option<i64>)
        requires
            self.wf(),
        ensures
            r == match self.sens_spec() {
                None => Option::<i64>::None,
                Some(x) => Some(x as i64),
            },
            r matches Some(x) ==> 1 <= x,
    {
        match self.get_adc() {
            None => None,
            Some(v) => {
                if 1 <= v && v < VREF_SENS_UV {
                    proof {
                        let den = VREF_SENS_UV - v as int;
                        lemma_mul_bound(R_INNER_MOHM as int, v as int, R_INNER_MOHM as int,
                            VREF_SENS_UV as int);
                        lemma_div_pos_is_pos(R_INNER_MOHM as int * v as int, den);
                        assert(R_INNER_MOHM as int <= R_INNER_MOHM as int * v as int)
                            by (nonlinear_arith)
                            requires
                                1 <= v,
                        ;
                        lemma_div_is_ordered(
                            R_INNER_MOHM as int,
                            R_INNER_MOHM as int * v as int,
                            den,
                        );
                        lemma_div_is_ordered_by_denominator(R_INNER_MOHM as int, den, 1_650_000);
                        lemma_div_nonincreasing(R_INNER_MOHM as int * v as int, den);
                    }
                    let num: u64 = (R_INNER_MOHM as u64) * (v as u64);
                    let den: u64 = (VREF_SENS_UV - v) as u64;
                    Some((num / den) as i64)
                } else {
                    None
                }
            },
        }
    }

    /// The temperature of the last sample, in millikelvin, through the
    /// channel's temperature model; absent without a usable resistance.
    pub open spec fn temperature_spec(self) -> Option<int> {
        match self.sens_spec() {
            None => None,
            Some(r) => Some(
                thermo::temperature_spec(
                    self.bp.t0 as int,
                    self.bp.r0 as int,
                    self.bp.b as int,
                    r,
                ),
            ),
        }
    }

    pub fn get_temperature(&self) -> (t: Option<i64>)
        requires
            self.wf(),
        ensures
            t == match self.temperature_spec() {
                None => Option::<i64>::None,
                Some(x) => Some(x as i64),
            },
            t matches Some(x) ==> thermo::TEMP_MIN_MK <= x <= thermo::TEMP_MAX_MK,
    {
        match self.get_sens() {
            None => None,
            Some(r) => Some(self.bp.get_temperature(r)),
        }
    }

    /// Update PID state on the latest temperature; the result is the new
    /// current setpoint in microamps. The PID history moves only when a
    /// temperature is available.
    pub fn update_pid(&mut self) -> (out: Option<i64>)
        requires
            old(self).wf(),
        ensures
            final(self).wf(),
            old(self).temperature_spec() is None ==> *final(self) == *old(self) && out is None,
            old(self).temperature_spec() matches Some(t) ==> {
                &&& *final(self) == (ChannelState {
                    pid: pid::updated(old(self).pid, t - 273_150),
                    ..*old(self)
                })
                &&& out == Some(pid::update_output(old(self).pid, t - 273_150) as i64)
            },
    {
        match self.get_temperature() {
            None => None,
            Some(t_mk) => {
                let celsius_m: i64 = t_mk - 273_150;
                let out: i64 = self.pid.update(celsius_m);
                Some(out)
            },
        }
    }

    /// Time of the last sample, in milliseconds.
    pub fn get_adc_time(&self) -> (t: u64)
        ensures
            t == self.adc_time,
    {
        self.adc_time
    }

    /// Interval between the last two samples, in milliseconds.
    pub fn get_adc_interval(&self) -> (t: u64)
        ensures
            t == self.adc_interval,
    {
        self.adc_interval
    }
}

} // verus!
