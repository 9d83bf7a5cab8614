//! Dispatch of control-engine commands.
//!
//! Each handler realizes one command as engine operations; what a command
//! returns to the protocol layer is the `Handler` disposition. Transport,
//! persistent storage and summary serialization live outside this library:
//! the corresponding commands (`Quit`, `Show`) only report a disposition
//! here and leave the engine untouched.

use vstd::prelude::*;

verus! {

use crate::ad7172::PostFilter;
use crate::channel_state::ChannelState;
use crate::channels::{set_i_outcome, Channels};
use crate::commands::{
    CenterPoint,
    Command,
    Ipv4Config,
    PidParameter,
    Polarity,
    PwmPin,
    ShParameter,
};
use crate::config::OutputLimits;
use crate::devices::{AdcDevice, AuxAdcSampler, DacDevice, DelayTimer, PwmOutput};
use crate::pid;

/// What handling one command asks of the calling layer.
#[derive(Clone, Debug, PartialEq, Eq)]
pub enum Handler {
    /// The command was handled; carry on.
    Handled,
    /// Close this client's connection.
    CloseSocket,
    /// Adopt a new interface configuration.
    NewIPV4(Ipv4Config),
    /// Reset the device.
    Reset,
}

/// A user-visible failure while handling a command.
#[derive(Clone, Copy, Debug, PartialEq, Eq, Structural)]
pub enum Error {
    /// A report could not be serialized.
    Report,
    /// No postfilter preset matches the requested rate.
    PostFilterRate,
    /// Persistent storage failed.
    Flash,
}

impl Handler {
    /// Engage PID control of a channel's current setpoint.
    pub fn engage_pid<A: AdcDevice, D: DacDevice, P: PwmOutput, S: AuxAdcSampler, T: DelayTimer>(
        channels: &mut Channels<A, D, P, S, T>,
        channel: usize,
    ) -> (r: Result<Handler, Error>)
        requires
            channel < 2,
            old(channels).wf(),
        ensures
            final(channels).wf(),
            r == Ok::<Handler, Error>(Handler::Handled),
            final(channels).state_spec(channel as int) == (ChannelState {
                pid_engaged: true,
                ..old(channels).state_spec(channel as int)
            }),
            Channels::other_unchanged(
                *old(channels),
                *final(channels),
                channel as int,
            ),
    {
        channels.channel_state(channel).pid_engaged = true;
        Ok(Handler::Handled)
    }

    /// Set a channel's polarity, re-applying setpoint and limits under the
    /// new sign convention.
    pub fn set_polarity<A: AdcDevice, D: DacDevice, P: PwmOutput, S: AuxAdcSampler, T: DelayTimer>(
        channels: &mut Channels<A, D, P, S, T>,
        channel: usize,
        polarity: Polarity,
    ) -> (r: Result<Handler, Error>)
        requires
            channel < 2,
            old(channels).wf(),
        ensures
            final(channels).wf(),
            r == Ok::<Handler, Error>(Handler::Handled),
            (old(channels).state_spec(channel as int).polarity == polarity
                ==> Channels::states_unchanged(*old(channels), *final(channels))),
            (old(channels).state_spec(channel as int).polarity != polarity
                ==> final(channels).state_spec(channel as int) == set_i_outcome(
                ChannelState { polarity, ..old(channels).state_spec(channel as int) },
                old(channels).state_spec(channel as int).i_set as int,
            ).0),
            Channels::other_unchanged(
                *old(channels),
                *final(channels),
                channel as int,
            ),
    {
        channels.set_polarity(channel, polarity);
        Ok(Handler::Handled)
    }

    /// Set an output quantity: the current setpoint (dropping out of PID
    /// control and powering the driver up) or one of the three limits.
    pub fn set_pwm<A: AdcDevice, D: DacDevice, P: PwmOutput, S: AuxAdcSampler, T: DelayTimer>(
        channels: &mut Channels<A, D, P, S, T>,
        channel: usize,
        pin: PwmPin,
        value: i64,
    ) -> (r: Result<Handler, Error>)
        requires
            channel < 2,
            old(channels).wf(),
        ensures
            final(channels).wf(),
            r == Ok::<Handler, Error>(Handler::Handled),
            final(channels).state_spec(channel as int) == output_command_outcome(
                old(channels).state_spec(channel as int),
                pin,
                value as int,
            ),
            Channels::other_unchanged(
                *old(channels),
                *final(channels),
                channel as int,
            ),
    {
        match pin {
            PwmPin::ISet => {
                channels.channel_state(channel).pid_engaged = false;
                channels.set_i(channel, value);
                channels.power_up(channel);
            },
            PwmPin::MaxV => {
                channels.set_max_v(channel, value);
            },
            PwmPin::MaxIPos => {
                channels.set_max_i_pos(channel, value);
            },
            PwmPin::MaxINeg => {
                channels.set_max_i_neg(channel, value);
            },
        }
        Ok(Handler::Handled)
    }

    /// Set a channel's zero-current bias point; outside PID control the
    /// setpoint is re-applied so the output reflects the new center.
    pub fn set_center_point<
        A: AdcDevice,
        D: DacDevice,
        P: PwmOutput,
        S: AuxAdcSampler,
        T: DelayTimer,
    >(channels: &mut Channels<A, D, P, S, T>, channel: usize, center: CenterPoint) -> (r: Result<
        Handler,
        Error,
    >)
        requires
            channel < 2,
            old(channels).wf(),
            center.wf(),
        ensures
            final(channels).wf(),
            r == Ok::<Handler, Error>(Handler::Handled),
            ({
                let with_center = ChannelState {
                    center,
                    ..old(channels).state_spec(channel as int)
                };
                final(channels).state_spec(channel as int) == (if with_center.pid_engaged {
                    with_center
                } else {
                    set_i_outcome(with_center, with_center.i_set as int).0
                })
            }),
            Channels::other_unchanged(
                *old(channels),
                *final(channels),
                channel as int,
            ),
    {
        let i_set: i64 = channels.get_i_set(channel);
        let state = channels.channel_state(channel);
        state.center = center;
        let engaged: bool = state.pid_engaged;
        if !engaged {
            channels.set_i(channel, i_set);
        }
        Ok(Handler::Handled)
    }

    /// Set one PID scalar of a channel.
    pub fn set_pid<A: AdcDevice, D: DacDevice, P: PwmOutput, S: AuxAdcSampler, T: DelayTimer>(
        channels: &mut Channels<A, D, P, S, T>,
        channel: usize,
        parameter: PidParameter,
        value: i64,
    ) -> (r: Result<Handler, Error>)
        requires
            channel < 2,
            old(channels).wf(),
            -pid::PID_SCALAR_LIMIT <= value <= pid::PID_SCALAR_LIMIT,
        ensures
            final(channels).wf(),
            r == Ok::<Handler, Error>(Handler::Handled),
            final(channels).state_spec(channel as int) == (ChannelState {
                pid: pid_with(old(channels).state_spec(channel as int).pid, parameter, value as int),
                ..old(channels).state_spec(channel as int)
            }),
            Channels::other_unchanged(
                *old(channels),
                *final(channels),
                channel as int,
            ),
    {
        let state = channels.channel_state(channel);
        match parameter {
            PidParameter::Target => state.pid.target = value,
            PidParameter::KP => state.pid.parameters.kp = value,
            PidParameter::KI => state.pid.parameters.ki = value,
            PidParameter::KD => state.pid.parameters.kd = value,
            PidParameter::OutputMin => state.pid.parameters.output_min = value,
            PidParameter::OutputMax => state.pid.parameters.output_max = value,
        }
        Ok(Handler::Handled)
    }

    /// Set one temperature-model scalar of a channel.
    pub fn set_steinhart_hart<
        A: AdcDevice,
        D: DacDevice,
        P: PwmOutput,
        S: AuxAdcSampler,
        T: DelayTimer,
    >(channels: &mut Channels<A, D, P, S, T>, channel: usize, parameter: ShParameter, value: i64) -> (r:
        Result<Handler, Error>)
        requires
            channel < 2,
            old(channels).wf(),
            (Command::SteinhartHart { channel, parameter, value }).wf(),
        ensures
            final(channels).wf(),
            r == Ok::<Handler, Error>(Handler::Handled),
            final(channels).state_spec(channel as int) == (ChannelState {
                bp: bp_with(old(channels).state_spec(channel as int).bp, parameter, value as int),
                ..old(channels).state_spec(channel as int)
            }),
            Channels::other_unchanged(
                *old(channels),
                *final(channels),
                channel as int,
            ),
    {
        let state = channels.channel_state(channel);
        match parameter {
            ShParameter::T0 => state.bp.t0 = value,
            ShParameter::B => state.bp.b = value,
            ShParameter::R0 => state.bp.r0 = value,
        }
        Ok(Handler::Handled)
    }

    /// Disable a channel's ADC postfilter.
    pub fn reset_post_filter<
        A: AdcDevice,
        D: DacDevice,
        P: PwmOutput,
        S: AuxAdcSampler,
        T: DelayTimer,
    >(channels: &mut Channels<A, D, P, S, T>, channel: usize) -> (r: Result<Handler, Error>)
        requires
            channel < 2,
            old(channels).wf(),
        ensures
            final(channels).wf(),
            r == Ok::<Handler, Error>(Handler::Handled),
            Channels::states_unchanged(*old(channels), *final(channels)),
    {
        channels.set_postfilter(channel as u8, None);
        Ok(Handler::Handled)
    }

    /// Select the postfilter preset nearest the requested rate. When no
    /// preset can be selected, the user-visible no-matching-rate condition
    /// is reported instead of silently picking one; with the fixed non-empty
    /// menu a nearest preset always exists, so this succeeds.
    pub fn set_post_filter<
        A: AdcDevice,
        D: DacDevice,
        P: PwmOutput,
        S: AuxAdcSampler,
        T: DelayTimer,
    >(channels: &mut Channels<A, D, P, S, T>, channel: usize, rate: u32) -> (r: Result<
        Handler,
        Error,
    >)
        requires
            channel < 2,
            old(channels).wf(),
        ensures
            final(channels).wf(),
            r == Ok::<Handler, Error>(Handler::Handled),
            Channels::states_unchanged(*old(channels), *final(channels)),
    {
        let filter: Option<PostFilter> = PostFilter::closest(rate);
        match filter {
            Some(filter) => {
                channels.set_postfilter(channel as u8, Some(filter));
                Ok(Handler::Handled)
            },
            None => Err(Error::PostFilterRate),
        }
    }

    /// Power both channels down and ask the calling layer to reset.
    pub fn reset<A: AdcDevice, D: DacDevice, P: PwmOutput, S: AuxAdcSampler, T: DelayTimer>(
        channels: &mut Channels<A, D, P, S, T>,
    ) -> (r: Result<Handler, Error>)
        requires
            old(channels).wf(),
        ensures
            final(channels).wf(),
            r == Ok::<Handler, Error>(Handler::Reset),
            final(channels).channel0 == (ChannelState { powered: false, ..old(channels).channel0 }),
            final(channels).channel1 == (ChannelState { powered: false, ..old(channels).channel1 }),
    {
        channels.power_down(0);
        channels.power_down(1);
        Ok(Handler::Reset)
    }

    /// Handle one engine command: dispatch to the operation it names. The
    /// disposition is `CloseSocket` for `Quit`, `Reset` for `Reset`, and
    /// `Handled` otherwise; `Show` commands read summaries through the
    /// reporting operations and leave control state untouched.
    pub fn handle_command<
        A: AdcDevice,
        D: DacDevice,
        P: PwmOutput,
        S: AuxAdcSampler,
        T: DelayTimer,
    >(command: Command, channels: &mut Channels<A, D, P, S, T>) -> (r: Result<Handler, Error>)
        requires
            old(channels).wf(),
            command.wf(),
        ensures
            final(channels).wf(),
            r == Ok::<Handler, Error>(
                match command {
                    Command::Quit => Handler::CloseSocket,
                    Command::Reset => Handler::Reset,
                    _ => Handler::Handled,
                },
            ),
            ({
                let pre = *old(channels);
                let post = *final(channels);
                match command {
                    Command::Quit => Channels::states_unchanged(pre, post),
                    Command::Show(_) => Channels::states_unchanged(pre, post),
                    Command::Reset => post.channel0 == (ChannelState {
                        powered: false,
                        ..pre.channel0
                    }) && post.channel1 == (ChannelState { powered: false, ..pre.channel1 }),
                    Command::OutputPid { channel } => post.state_spec(channel as int) == (
                    ChannelState {
                        pid_engaged: true,
                        ..pre.state_spec(channel as int)
                    }) && Channels::other_unchanged(pre, post, channel as int),
                    Command::OutputPolarity { channel, polarity } => ((pre.state_spec(
                        channel as int,
                    ).polarity == polarity ==> Channels::states_unchanged(
                        pre,
                        post,
                    )) && (pre.state_spec(channel as int).polarity != polarity ==> post.state_spec(
                        channel as int,
                    ) == set_i_outcome(
                        ChannelState { polarity, ..pre.state_spec(channel as int) },
                        pre.state_spec(channel as int).i_set as int,
                    ).0) && Channels::other_unchanged(pre, post, channel as int)),
                    Command::Output { channel, pin, value } => post.state_spec(channel as int)
                        == output_command_outcome(pre.state_spec(channel as int), pin, value as int)
                        && Channels::other_unchanged(pre, post, channel as int),
                    Command::CenterPoint { channel, center } => ({
                        let with_center = ChannelState {
                            center,
                            ..pre.state_spec(channel as int)
                        };
                        post.state_spec(channel as int) == (if with_center.pid_engaged {
                            with_center
                        } else {
                            set_i_outcome(with_center, with_center.i_set as int).0
                        }) && Channels::other_unchanged(pre, post, channel as int)
                    }),
                    Command::Pid { channel, parameter, value } => post.state_spec(channel as int)
                        == (ChannelState {
                        pid: pid_with(pre.state_spec(channel as int).pid, parameter, value as int),
                        ..pre.state_spec(channel as int)
                    }) && Channels::other_unchanged(pre, post, channel as int),
                    Command::SteinhartHart { channel, parameter, value } => post.state_spec(
                        channel as int,
                    ) == (ChannelState {
                        bp: bp_with(pre.state_spec(channel as int).bp, parameter, value as int),
                        ..pre.state_spec(channel as int)
                    }) && Channels::other_unchanged(pre, post, channel as int),
                    Command::PostFilter { channel, rate } => Channels::states_unchanged(pre, post),
                }
            }),
    {
        match command {
            Command::Quit => Ok(Handler::CloseSocket),
            Command::Show(_) => Ok(Handler::Handled),
            Command::Reset => Handler::reset(channels),
            Command::OutputPid { channel } => Handler::engage_pid(channels, channel),
            Command::OutputPolarity { channel, polarity } => Handler::set_polarity(
                channels,
                channel,
                polarity,
            ),
            Command::Output { channel, pin, value } => Handler::set_pwm(
                channels,
                channel,
                pin,
                value,
            ),
            Command::CenterPoint { channel, center } => Handler::set_center_point(
                channels,
                channel,
                center,
            ),
            Command::Pid { channel, parameter, value } => Handler::set_pid(
                channels,
                channel,
                parameter,
                value,
            ),
            Command::SteinhartHart { channel, parameter, value } => Handler::set_steinhart_hart(
                channels,
                channel,
                parameter,
                value,
            ),
            Command::PostFilter { channel, rate: None } => Handler::reset_post_filter(
                channels,
                channel,
            ),
            Command::PostFilter { channel, rate: Some(rate) } => {
                let r = Handler::set_post_filter(channels, channel, rate);
                proof {
                    assert(r == Ok::<Handler, Error>(Handler::Handled));
                }
                r
            },
        }
    }
}

/// A channel state with one PID scalar replaced.
pub open spec fn pid_with(c: pid::Controller, parameter: PidParameter, value: int) -> pid::Controller {
    match parameter {
        PidParameter::Target => pid::Controller { target: value as i64, ..c },
        PidParameter::KP => pid::Controller {
            parameters: pid::Parameters { kp: value as i64, ..c.parameters },
            ..c
        },
        PidParameter::KI => pid::Controller {
            parameters: pid::Parameters { ki: value as i64, ..c.parameters },
            ..c
        },
        PidParameter::KD => pid::Controller {
            parameters: pid::Parameters { kd: value as i64, ..c.parameters },
            ..c
        },
        PidParameter::OutputMin => pid::Controller {
            parameters: pid::Parameters { output_min: value as i64, ..c.parameters },
            ..c
        },
        PidParameter::OutputMax => pid::Controller {
            parameters: pid::Parameters { output_max: value as i64, ..c.parameters },
            ..c
        },
    }
}

/// A temperature-model parameter set with one scalar replaced.
pub open spec fn bp_with(
    p: crate::b_parameter::Parameters,
    parameter: ShParameter,
    value: int,
) -> crate::b_parameter::Parameters {
    match parameter {
        ShParameter::T0 => crate::b_parameter::Parameters { t0: value as i64, ..p },
        ShParameter::B => crate::b_parameter::Parameters { b: value as i64, ..p },
        ShParameter::R0 => crate::b_parameter::Parameters { r0: value as i64, ..p },
    }
}

/// The channel state after an `Output` command: a new current setpoint
/// (with PID disengaged and the driver powered up) or a new stored limit.
pub open spec fn output_command_outcome(s: ChannelState, pin: PwmPin, value: int) -> ChannelState {
    match pin {
        PwmPin::ISet => ChannelState {
            powered: true,
            ..set_i_outcome(ChannelState { pid_engaged: false, ..s }, value).0
        },
        PwmPin::MaxV => ChannelState {
            output_limits: OutputLimits {
                max_v: crate::clamp_i64(value, 0, crate::MAX_TEC_V_UV as int) as i64,
                ..s.output_limits
            },
            ..s
        },
        PwmPin::MaxIPos => ChannelState {
            output_limits: OutputLimits {
                max_i_pos: crate::clamp_i64(value, 0, crate::MAX_TEC_I_UA as int) as i64,
                ..s.output_limits
            },
            ..s
        },
        PwmPin::MaxINeg => ChannelState {
            output_limits: OutputLimits {
                max_i_neg: crate::clamp_i64(value, 0, crate::MAX_TEC_I_UA as int) as i64,
                ..s.output_limits
            },
            ..s
        },
    }
}

} // verus!
