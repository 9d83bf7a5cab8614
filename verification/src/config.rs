//! Serializable per-channel configuration snapshots.
//!
//! A snapshot captures everything a channel needs to resume after a reboot:
//! bias point, PID settings and engagement, setpoint, polarity,
//! temperature-model parameters, output limits and postfilter selection.
//! The storage format and medium live outside this library.

use vstd::prelude::*;

verus! {

use crate::ad7172::PostFilter;
use crate::channel_state::ChannelState;
use crate::channels::Channels;
use crate::commands::{CenterPoint, Polarity};
use crate::devices::{AdcDevice, AuxAdcSampler, DacDevice, DelayTimer, PwmOutput};
use crate::b_parameter;
use crate::pid;

/// Enforced output ceiling magnitudes, each clamped to the device's
/// absolute maxima.
#[derive(Clone, Copy, Debug, PartialEq, Eq, Structural)]
pub struct OutputLimits {
    /// Voltage limit, in microvolts.
    pub max_v: i64,
    /// Positive current limit magnitude, in microamps.
    pub max_i_pos: i64,
    /// Negative current limit magnitude, in microamps.
    pub max_i_neg: i64,
}

impl OutputLimits {
    pub open spec fn wf(self) -> bool {
        &&& 0 <= self.max_v <= crate::MAX_TEC_V_UV
        &&& 0 <= self.max_i_pos <= crate::MAX_TEC_I_UA
        &&& 0 <= self.max_i_neg <= crate::MAX_TEC_I_UA
    }

    /// Capture a channel's enforced limits.
    pub fn new<A: AdcDevice, D: DacDevice, P: PwmOutput, S: AuxAdcSampler, T: DelayTimer>(
        channels: &mut Channels<A, D, P, S, T>,
        channel: usize,
    ) -> (r: OutputLimits)
        requires
            channel < 2,
        ensures
            *final(channels) == *old(channels),
            r == old(channels).state_spec(channel as int).output_limits,
    {
        let max_v: i64 = channels.get_max_v(channel);
        let max_i_pos: i64 = channels.get_max_i_pos(channel);
        let max_i_neg: i64 = channels.get_max_i_neg(channel);
        OutputLimits { max_v, max_i_pos, max_i_neg }
    }

    /// Re-apply the captured limits through the limit setters, which clamp
    /// each into the device range and drive the PWM rails.
    pub fn apply<A: AdcDevice, D: DacDevice, P: PwmOutput, S: AuxAdcSampler, T: DelayTimer>(
        &self,
        channels: &mut Channels<A, D, P, S, T>,
        channel: usize,
    )
        requires
            channel < 2,
            old(channels).wf(),
        ensures
            final(channels).wf(),
            final(channels).state_spec(channel as int) == (ChannelState {
                output_limits: OutputLimits {
                    max_v: crate::clamp_i64(self.max_v as int, 0, crate::MAX_TEC_V_UV as int)
                        as i64,
                    max_i_pos: crate::clamp_i64(
                        self.max_i_pos as int,
                        0,
                        crate::MAX_TEC_I_UA as int,
                    ) as i64,
                    max_i_neg: crate::clamp_i64(
                        self.max_i_neg as int,
                        0,
                        crate::MAX_TEC_I_UA as int,
                    ) as i64,
                },
                ..old(channels).state_spec(channel as int)
            }),
            Channels::other_unchanged(*old(channels), *final(channels), channel as int),
    {
        channels.set_max_v(channel, self.max_v);
        channels.set_max_i_pos(channel, self.max_i_pos);
        channels.set_max_i_neg(channel, self.max_i_neg);
    }
}

/// Serializable per-channel configuration snapshot.
#[derive(Clone, Copy, Debug, PartialEq, Eq, Structural)]
pub struct ChannelConfig {
    pub center: CenterPoint,
    pub pid: pid::Parameters,
    /// PID target, in millidegrees Celsius.
    pub pid_target: i64,
    pub pid_engaged: bool,
    /// Current setpoint, in microamps; zero when PID was engaged.
    pub i_set: i64,
    pub polarity: Polarity,
    pub bp: b_parameter::Parameters,
    pub output_limits: OutputLimits,
    /// Uses `PostFilter::Invalid` instead of an option to save space.
    pub adc_postfilter: PostFilter,
}

/// The channel state a snapshot restores, given the state it is applied
/// over: scalar settings land directly, limits are clamped through the
/// setters, the setpoint is re-commanded, and finally the polarity change
/// (when there is one) re-applies the setpoint under the new convention.
pub open spec fn config_applied(cfg: ChannelConfig, s: ChannelState) -> ChannelState {
    let s1 = ChannelState {
        center: cfg.center,
        pid: pid::Controller { parameters: cfg.pid, target: cfg.pid_target, ..s.pid },
        pid_engaged: cfg.pid_engaged,
        bp: cfg.bp,
        output_limits: OutputLimits {
            max_v: crate::clamp_i64(cfg.output_limits.max_v as int, 0, crate::MAX_TEC_V_UV as int)
                as i64,
            max_i_pos: crate::clamp_i64(
                cfg.output_limits.max_i_pos as int,
                0,
                crate::MAX_TEC_I_UA as int,
            ) as i64,
            max_i_neg: crate::clamp_i64(
                cfg.output_limits.max_i_neg as int,
                0,
                crate::MAX_TEC_I_UA as int,
            ) as i64,
        },
        ..s
    };
    let s2 = crate::channels::set_i_outcome(s1, cfg.i_set as int).0;
    if s2.polarity == cfg.polarity {
        s2
    } else {
        crate::channels::set_i_outcome(
            ChannelState { polarity: cfg.polarity, ..s2 },
            s2.i_set as int,
        ).0
    }
}

impl ChannelConfig {
    /// The value ranges under which a snapshot can be applied.
    pub open spec fn wf(self) -> bool {
        &&& self.center.wf()
        &&& -pid::PID_SCALAR_LIMIT <= self.pid.kp <= pid::PID_SCALAR_LIMIT
        &&& -pid::PID_SCALAR_LIMIT <= self.pid.ki <= pid::PID_SCALAR_LIMIT
        &&& -pid::PID_SCALAR_LIMIT <= self.pid.kd <= pid::PID_SCALAR_LIMIT
        &&& -pid::PID_SCALAR_LIMIT <= self.pid.output_min <= pid::PID_SCALAR_LIMIT
        &&& -pid::PID_SCALAR_LIMIT <= self.pid.output_max <= pid::PID_SCALAR_LIMIT
        &&& -pid::PID_SCALAR_LIMIT <= self.pid_target <= pid::PID_SCALAR_LIMIT
        &&& crate::thermo::model_wf(self.bp.t0 as int, self.bp.r0 as int, self.bp.b as int)
    }

    /// Capture a channel's configuration. When PID is engaged the snapshot
    /// stores a zero setpoint, so a restore does not replay a stale manual
    /// current.
    pub fn new<A: AdcDevice, D: DacDevice, P: PwmOutput, S: AuxAdcSampler, T: DelayTimer>(
        channels: &mut Channels<A, D, P, S, T>,
        channel: usize,
    ) -> (r: ChannelConfig)
        requires
            channel < 2,
            old(channels).wf(),
        ensures
            Channels::states_unchanged(*old(channels), *final(channels)),
            ({
                let s = old(channels).state_spec(channel as int);
                &&& r.center == s.center
                &&& r.pid == s.pid.parameters
                &&& r.pid_target == s.pid.target
                &&& r.pid_engaged == s.pid_engaged
                &&& r.i_set == (if s.pid_engaged {
                    0i64
                } else {
                    s.i_set
                })
                &&& r.polarity == s.polarity
                &&& r.bp == s.bp
                &&& r.output_limits == s.output_limits
            }),
            r.wf(),
    {
        let output_limits = OutputLimits::new(channels, channel);
        let filter = channels.get_postfilter(channel as u8);
        let adc_postfilter: PostFilter = match filter {
            Some(f) => f,
            None => PostFilter::Invalid,
        };
        let state = channels.channel_state(channel);
        let i_set: i64 = if state.pid_engaged {
            0
        } else {
            state.i_set
        };
        ChannelConfig {
            center: state.center,
            pid: state.pid.parameters,
            pid_target: state.pid.target,
            pid_engaged: state.pid_engaged,
            i_set,
            polarity: state.polarity,
            bp: state.bp,
            output_limits,
            adc_postfilter,
        }
    }

    /// Apply a snapshot to a channel: settings land in the state, the
    /// limits, postfilter, setpoint and polarity are re-commanded through
    /// the engine.
    pub fn apply<A: AdcDevice, D: DacDevice, P: PwmOutput, S: AuxAdcSampler, T: DelayTimer>(
        &self,
        channels: &mut Channels<A, D, P, S, T>,
        channel: usize,
    )
        requires
            channel < 2,
            old(channels).wf(),
            self.wf(),
        ensures
            final(channels).wf(),
            final(channels).state_spec(channel as int) == config_applied(
                *self,
                old(channels).state_spec(channel as int),
            ),
            Channels::other_unchanged(*old(channels), *final(channels), channel as int),
    {
        let state = channels.channel_state(channel);
        state.center = self.center;
        state.pid.parameters = self.pid;
        state.pid.target = self.pid_target;
        state.pid_engaged = self.pid_engaged;
        state.bp = self.bp;
        self.output_limits.apply(channels, channel);
        let adc_postfilter: Option<PostFilter> = match self.adc_postfilter {
            PostFilter::Invalid => None,
            f => Some(f),
        };
        channels.set_postfilter(channel as u8, adc_postfilter);
        channels.set_i(channel, self.i_set);
        channels.set_polarity(channel, self.polarity);
    }
}

} // verus!
