//! The control engine against simulated hardware: setpoint clamping and
//! idempotence, polarity reversal, the boot-time DAC calibration search,
//! sentinel fail-safe on the control tick, limit programming, command
//! dispatch and configuration snapshots.

use std::cell::Cell;
use std::rc::Rc;

use thermostat::ad7172::{PostFilter, MAX_VALUE};
use thermostat::channel_state::AdcCalibration;
use thermostat::channels::{
    average_code, calibration_step, current_from_sense, max_abs_current, voltage_from_sense,
    CalibrationStep, Channels, PinsAdcReadTarget, PwmLimits,
};
use thermostat::command_handler::Handler;
use thermostat::commands::{
    CenterPoint, Command, PidParameter, Polarity, PwmPin, ShParameter, ShowCommand,
};
use thermostat::config::ChannelConfig;
use thermostat::devices::{AdcDevice, AuxAdcSampler, DacDevice, DelayTimer, PwmOutput};

/// The thermistor ADC: one pending conversion at a time, plus the
/// per-channel postfilter registers.
struct SimAdc {
    pending: Option<(u8, u32)>,
    postfilters: [Option<PostFilter>; 2],
}

impl AdcDevice for SimAdc {
    fn data_ready(&mut self) -> Option<u8> {
        self.pending.map(|(channel, _)| channel)
    }

    fn read_data(&mut self) -> u32 {
        let (_, data) = self.pending.take().expect("read_data without data_ready");
        data
    }

    fn get_postfilter(&mut self, index: u8) -> Option<PostFilter> {
        self.postfilters[index as usize]
    }

    fn set_postfilter(&mut self, index: u8, filter: Option<PostFilter>) {
        self.postfilters[index as usize] = filter;
    }
}

/// One channel's DAC and driver enable, observable from outside.
struct SimDac {
    code: Rc<Cell<u32>>,
    powered: Rc<Cell<bool>>,
}

impl DacDevice for SimDac {
    fn set(&mut self, value: u32) {
        self.code.set(value);
    }

    fn power_up(&mut self) {
        self.powered.set(true);
    }

    fn power_down(&mut self) {
        self.powered.set(false);
    }
}

/// A PWM rail with an observable duty register.
struct SimPwm {
    duty: Rc<Cell<u16>>,
    max: u16,
}

impl PwmOutput for SimPwm {
    fn get_max_duty(&self) -> u16 {
        self.max
    }

    fn set_duty(&mut self, duty: u16) {
        self.duty.set(duty);
    }
}

/// The auxiliary ADC: the DAC feedback pins follow the simulated DACs
/// through an ideal, monotonically increasing transfer function; the other
/// monitoring pins read fixed levels.
struct SimSampler {
    dac0: Rc<Cell<u32>>,
    dac1: Rc<Cell<u32>>,
    vref_mv: u16,
    itec_mv: u16,
    vtec_mv: u16,
    /// Adds a small deterministic ripple to the DAC feedback, so the
    /// transfer is only approximately monotone, as a noisy analog chain
    /// would be.
    ripple: bool,
}

fn dac_code_to_millivolts(code: u32) -> u16 {
    ((code as u64 * 3000) / 262_143) as u16
}

impl AuxAdcSampler for SimSampler {
    fn convert(&mut self, channel: u8, target: PinsAdcReadTarget) -> u16 {
        match target {
            PinsAdcReadTarget::VRef => self.vref_mv,
            PinsAdcReadTarget::DacVfb => {
                let code = if channel == 0 { self.dac0.get() } else { self.dac1.get() };
                let mv = dac_code_to_millivolts(code);
                if self.ripple {
                    mv + (code % 3) as u16
                } else {
                    mv
                }
            }
            PinsAdcReadTarget::ITec => self.itec_mv,
            PinsAdcReadTarget::VTec => self.vtec_mv,
        }
    }

    fn sample_to_millivolts(&mut self, sample: u16) -> u16 {
        sample
    }
}

struct SimDelay;

impl DelayTimer for SimDelay {
    fn sleep_ms(&mut self, _ms: u32) {}
}

struct Handles {
    dac_code0: Rc<Cell<u32>>,
    dac_code1: Rc<Cell<u32>>,
    powered0: Rc<Cell<bool>>,
    powered1: Rc<Cell<bool>>,
    duty_v0: Rc<Cell<u16>>,
    duty_pos0: Rc<Cell<u16>>,
    duty_neg0: Rc<Cell<u16>>,
}

type SimChannels = Channels<SimAdc, SimDac, SimPwm, SimSampler, SimDelay>;

fn make_channels() -> (SimChannels, Handles) {
    make_channels_opts(false)
}

fn make_channels_opts(ripple: bool) -> (SimChannels, Handles) {
    let dac_code0 = Rc::new(Cell::new(0u32));
    let dac_code1 = Rc::new(Cell::new(0u32));
    let powered0 = Rc::new(Cell::new(false));
    let powered1 = Rc::new(Cell::new(false));
    let duty_v0 = Rc::new(Cell::new(0u16));
    let duty_pos0 = Rc::new(Cell::new(0u16));
    let duty_neg0 = Rc::new(Cell::new(0u16));
    let adc = SimAdc { pending: None, postfilters: [None, None] };
    let dac0 = SimDac { code: dac_code0.clone(), powered: powered0.clone() };
    let dac1 = SimDac { code: dac_code1.clone(), powered: powered1.clone() };
    let pins_adc = SimSampler {
        dac0: dac_code0.clone(),
        dac1: dac_code1.clone(),
        vref_mv: 1500,
        itec_mv: 1600,
        vtec_mv: 1700,
        ripple,
    };
    let pwm = PwmLimits {
        max_v0: SimPwm { duty: duty_v0.clone(), max: 1000 },
        max_i_pos0: SimPwm { duty: duty_pos0.clone(), max: 1000 },
        max_i_neg0: SimPwm { duty: duty_neg0.clone(), max: 1000 },
        max_v1: SimPwm { duty: Rc::new(Cell::new(0)), max: 1000 },
        max_i_pos1: SimPwm { duty: Rc::new(Cell::new(0)), max: 1000 },
        max_i_neg1: SimPwm { duty: Rc::new(Cell::new(0)), max: 1000 },
    };
    let cal = AdcCalibration { full_scale_uv: 3_300_000 };
    let channels = Channels::new(adc, dac0, dac1, pins_adc, pwm, SimDelay, cal, cal);
    let handles = Handles {
        dac_code0,
        dac_code1,
        powered0,
        powered1,
        duty_v0,
        duty_pos0,
        duty_neg0,
    };
    (channels, handles)
}

/// The raw 24-bit code whose calibrated input voltage corresponds to a
/// thermistor of `r_mohm` behind the input divider.
fn raw_code_for_resistance(r_mohm: i64) -> u32 {
    let v_uv = 1_650_000i64 * r_mohm / (10_200_000 + r_mohm);
    ((v_uv as u128 * 0x100_0000) / 3_300_000) as u32 + 1
}

#[test]
fn calibration_finds_reference_voltage() {
    // The simulated DAC transfer is monotonically increasing and the target
    // (1.5 V) is exactly representable in the feedback path, so the
    // discovered code's output error is below one fine step of the search
    // (32 codes, about 366 microvolts).
    let (channels, _handles) = make_channels();
    let vref = channels.channel0.vref_meas;
    assert!((vref - 1_500_000).abs() < 367, "vref_meas={}", vref);
    assert!((channels.channel1.vref_meas - 1_500_000).abs() < 367);
}

#[test]
fn calibration_with_offcenter_target() {
    // With a target that does not align with the 1 millivolt feedback
    // quantization, the discovered code is still within one feedback step
    // plus one fine step of the target.
    let (mut channels, _handles) = make_channels();
    channels.channel0.center = CenterPoint::Override(1_000_700);
    channels.calibrate_dac_value(0);
    let vref = channels.channel0.vref_meas;
    assert!((vref - 1_000_700).abs() < 1_367, "vref_meas={}", vref);
    // The DAC is reset to zero after the search.
    assert_eq!(channels.channel0.dac_value, 0);
}

#[test]
fn calibration_tolerates_a_noisy_monotone_transfer() {
    // A ripple of up to 2 millivolts can end a sweep early (the search
    // treats any negative error as overshoot), which is accepted behaviour:
    // the search still completes and keeps its best estimate within a few
    // millivolts of the target.
    let (channels, _handles) = make_channels_opts(true);
    let vref = channels.channel0.vref_meas;
    assert!((vref - 1_500_000).abs() < 4_000, "vref_meas={}", vref);
}

#[test]
fn set_i_clamps_to_device_maximum() {
    let (mut channels, _handles) = make_channels();
    // Requesting 3 A on a 2 A device yields at most 2 A.
    let achieved = channels.set_i(0, 3_000_000);
    assert!(achieved <= 2_000_000, "achieved={}", achieved);
    assert!(achieved > 1_999_900);
    assert_eq!(channels.channel0.i_set, 2_000_000);
    let achieved_neg = channels.set_i(0, -3_000_000);
    assert!(achieved_neg >= -2_000_000);
    assert!(achieved_neg < -1_999_900);
}

#[test]
fn set_i_is_idempotent() {
    let (mut channels, handles) = make_channels();
    let first = channels.set_i(0, 1_200_000);
    let code_first = handles.dac_code0.get();
    let state_first = (channels.channel0.i_set, channels.channel0.dac_value);
    let second = channels.set_i(0, 1_200_000);
    assert_eq!(first, second);
    assert_eq!(code_first, handles.dac_code0.get());
    assert_eq!(state_first, (channels.channel0.i_set, channels.channel0.dac_value));
}

#[test]
fn polarity_reversal_mirrors_dac_voltage() {
    let (mut channels, _handles) = make_channels();
    let center = channels.channel0.vref_meas;
    let forward = channels.set_i(0, 1_000_000);
    let v_forward = channels.channel0.dac_value;
    assert!(v_forward > center);
    channels.set_polarity(0, Polarity::Reversed);
    let reversed = channels.set_i(0, 1_000_000);
    let v_reversed = channels.channel0.dac_value;
    // Opposite side of the center, same achieved magnitude up to the DAC
    // quantization step.
    assert!(v_reversed < center);
    assert!((v_forward - center + (v_reversed - center)).abs() <= 24);
    assert!(forward > 0 && reversed > 0);
    assert!((forward - reversed).abs() <= 24, "{} vs {}", forward, reversed);
}

#[test]
fn set_polarity_is_a_noop_when_unchanged() {
    let (mut channels, handles) = make_channels();
    channels.set_i(0, 500_000);
    let code = handles.dac_code0.get();
    let dac_value = channels.channel0.dac_value;
    channels.set_polarity(0, Polarity::Normal);
    assert_eq!(code, handles.dac_code0.get());
    assert_eq!(dac_value, channels.channel0.dac_value);
}

#[test]
fn sentinel_powers_actuator_down() {
    let (mut channels, handles) = make_channels();
    channels.channel0.pid_engaged = true;
    channels.power_up(0);
    assert!(handles.powered0.get());
    // A full-scale sample means no thermistor: the next poll powers the
    // channel down instead of holding the stale setpoint.
    channels.adc.pending = Some((0, MAX_VALUE));
    let serviced = channels.poll_adc(1_000);
    assert_eq!(serviced, Some(0));
    assert!(!channels.channel0.powered);
    assert!(!handles.powered0.get());
    assert!(channels.channel0.adc_data.is_none());
}

#[test]
fn poll_adc_runs_pid_when_engaged() {
    let (mut channels, handles) = make_channels();
    channels.channel0.pid_engaged = true;
    channels.channel0.pid.target = 35_000;
    channels.channel0.pid.parameters.kp = 30_000;
    // A sample corresponding to a 10 kiloohm thermistor (25 degrees).
    channels.adc.pending = Some((0, raw_code_for_resistance(10_000_000)));
    let serviced = channels.poll_adc(2_000);
    assert_eq!(serviced, Some(0));
    assert!(channels.channel0.powered);
    assert!(handles.powered0.get());
    assert_eq!(channels.channel0.adc_time, 2_000);
    // Colder than target, so the controller pushes a positive current.
    assert!(channels.channel0.i_set > 0);
}

#[test]
fn poll_adc_with_nothing_ready_is_a_noop() {
    let (mut channels, _handles) = make_channels();
    let before = channels.channel0.adc_time;
    assert_eq!(channels.poll_adc(9_999), None);
    assert_eq!(channels.channel0.adc_time, before);
}

#[test]
fn report_reflects_state_and_samples() {
    let (mut channels, _handles) = make_channels();
    channels.adc.pending = Some((0, raw_code_for_resistance(10_000_000)));
    channels.poll_adc(3_000);
    let report = channels.report(0);
    assert_eq!(report.channel, 0);
    assert_eq!(report.time, 3_000);
    let sens = report.sens.expect("thermistor connected");
    assert!((sens - 10_000_000).abs() < 20_000, "sens={}", sens);
    let temp = report.temperature.expect("temperature available");
    assert!((temp - 25_000).abs() < 150, "temp={}", temp);
    // tec_i: (1600 mV - 1500 mV) over 0.4 ohm = 250 mA.
    assert_eq!(report.tec_i, 250_000);
    // tec_u_meas: (1700 mV - 1500 mV) * 4 = 800 mV.
    assert_eq!(report.tec_u_meas, 800_000);
    assert!(!report.pid_engaged);
}

#[test]
fn set_max_v_clamps_and_round_trips() {
    let (mut channels, handles) = make_channels();
    let (achieved, ceiling) = channels.set_max_v(0, 10_000_000);
    assert_eq!(ceiling, 4_000_000);
    assert_eq!(channels.channel0.output_limits.max_v, 4_000_000);
    // 4 V limit = 1 V rail over a 1000-count PWM referenced to 3.3 V:
    // duty 303 counts, read back as 999900 microvolts, times 4.
    assert_eq!(handles.duty_v0.get(), 303);
    assert_eq!(achieved, 3_999_600);
    let (_, _) = channels.set_max_v(0, -5);
    assert_eq!(channels.channel0.output_limits.max_v, 0);
}

#[test]
fn current_limits_swap_rails_on_reversed_polarity() {
    let (mut channels, handles) = make_channels();
    channels.set_max_i_pos(0, 1_000_000);
    let pos_duty = handles.duty_pos0.get();
    assert!(pos_duty > 0);
    assert_eq!(handles.duty_neg0.get(), 0);
    channels.set_polarity(0, Polarity::Reversed);
    // Re-applying the positive limit under reversed polarity drives the
    // negative rail.
    handles.duty_pos0.set(0);
    channels.set_max_i_pos(0, 1_000_000);
    assert_eq!(handles.duty_pos0.get(), 0);
    assert_eq!(handles.duty_neg0.get(), pos_duty);
}

#[test]
fn set_max_i_neg_clamps() {
    let (mut channels, _handles) = make_channels();
    let (achieved, ceiling) = channels.set_max_i_neg(0, 99_000_000);
    assert_eq!(ceiling, 2_000_000);
    assert_eq!(channels.channel0.output_limits.max_i_neg, 2_000_000);
    assert!(achieved <= 2_046_000);
}

#[test]
fn pid_engaged_reports_either_channel() {
    let (mut channels, _handles) = make_channels();
    assert!(!channels.pid_engaged());
    channels.channel1.pid_engaged = true;
    assert!(channels.pid_engaged());
}

#[test]
fn current_abs_max_spans_channels() {
    let (mut channels, _handles) = make_channels();
    // Both channels read the same fixed monitoring levels: 250 mA each.
    assert_eq!(channels.current_abs_max_tec_i(), 250_000);
}

#[test]
fn handler_engages_pid() {
    let (mut channels, _handles) = make_channels();
    let r = Handler::handle_command(Command::OutputPid { channel: 0 }, &mut channels);
    assert_eq!(r, Ok(Handler::Handled));
    assert!(channels.channel0.pid_engaged);
}

#[test]
fn handler_output_i_set_disengages_and_powers_up() {
    let (mut channels, handles) = make_channels();
    channels.channel0.pid_engaged = true;
    let r = Handler::handle_command(
        Command::Output { channel: 0, pin: PwmPin::ISet, value: 300_000 },
        &mut channels,
    );
    assert_eq!(r, Ok(Handler::Handled));
    assert!(!channels.channel0.pid_engaged);
    assert_eq!(channels.channel0.i_set, 300_000);
    assert!(handles.powered0.get());
}

#[test]
fn handler_sets_limits_and_scalars() {
    let (mut channels, _handles) = make_channels();
    let r = Handler::handle_command(
        Command::Output { channel: 1, pin: PwmPin::MaxV, value: 1_500_000 },
        &mut channels,
    );
    assert_eq!(r, Ok(Handler::Handled));
    assert_eq!(channels.channel1.output_limits.max_v, 1_500_000);
    let r = Handler::handle_command(
        Command::Pid { channel: 1, parameter: PidParameter::KP, value: 42_000 },
        &mut channels,
    );
    assert_eq!(r, Ok(Handler::Handled));
    assert_eq!(channels.channel1.pid.parameters.kp, 42_000);
    let r = Handler::handle_command(
        Command::Pid { channel: 1, parameter: PidParameter::Target, value: 31_000 },
        &mut channels,
    );
    assert_eq!(r, Ok(Handler::Handled));
    assert_eq!(channels.channel1.pid.target, 31_000);
    let r = Handler::handle_command(
        Command::SteinhartHart { channel: 1, parameter: ShParameter::T0, value: 296_150 },
        &mut channels,
    );
    assert_eq!(r, Ok(Handler::Handled));
    assert_eq!(channels.channel1.bp.t0, 296_150);
}

#[test]
fn handler_selects_postfilter_by_rate() {
    let (mut channels, _handles) = make_channels();
    let r = Handler::handle_command(
        Command::PostFilter { channel: 0, rate: Some(21_000) },
        &mut channels,
    );
    assert_eq!(r, Ok(Handler::Handled));
    assert_eq!(channels.adc.postfilters[0], Some(PostFilter::F20SPS));
    let r = Handler::handle_command(Command::PostFilter { channel: 0, rate: None }, &mut channels);
    assert_eq!(r, Ok(Handler::Handled));
    assert_eq!(channels.adc.postfilters[0], None);
}

#[test]
fn handler_reset_powers_both_channels_down() {
    let (mut channels, handles) = make_channels();
    channels.power_up(0);
    channels.power_up(1);
    let r = Handler::handle_command(Command::Reset, &mut channels);
    assert_eq!(r, Ok(Handler::Reset));
    assert!(!handles.powered0.get());
    assert!(!handles.powered1.get());
}

#[test]
fn handler_dispositions() {
    let (mut channels, _handles) = make_channels();
    assert_eq!(
        Handler::handle_command(Command::Quit, &mut channels),
        Ok(Handler::CloseSocket)
    );
    assert_eq!(
        Handler::handle_command(Command::Show(ShowCommand::Pid), &mut channels),
        Ok(Handler::Handled)
    );
}

#[test]
fn handler_center_point_reapplies_setpoint() {
    let (mut channels, _handles) = make_channels();
    channels.set_i(0, 400_000);
    let r = Handler::handle_command(
        Command::CenterPoint { channel: 0, center: CenterPoint::Override(1_200_000) },
        &mut channels,
    );
    assert_eq!(r, Ok(Handler::Handled));
    assert_eq!(channels.channel0.center, CenterPoint::Override(1_200_000));
    assert_eq!(channels.channel0.i_set, 400_000);
}

#[test]
fn config_snapshot_round_trips() {
    let (mut channels, _handles) = make_channels();
    channels.set_i(0, 250_000);
    channels.set_max_v(0, 3_000_000);
    channels.set_max_i_pos(0, 1_500_000);
    channels.set_max_i_neg(0, 1_250_000);
    channels.channel0.pid.parameters.kp = 12_345;
    channels.channel0.pid.target = 29_000;
    channels.set_postfilter(0, Some(PostFilter::F25SPS));
    let config = ChannelConfig::new(&mut channels, 0);

    // Disturb the channel, then restore the snapshot.
    channels.set_i(0, -900_000);
    channels.set_max_v(0, 100_000);
    channels.channel0.pid.parameters.kp = 0;
    channels.set_postfilter(0, None);
    config.apply(&mut channels, 0);

    assert_eq!(channels.channel0.i_set, 250_000);
    assert_eq!(channels.channel0.output_limits.max_v, 3_000_000);
    assert_eq!(channels.channel0.output_limits.max_i_pos, 1_500_000);
    assert_eq!(channels.channel0.output_limits.max_i_neg, 1_250_000);
    assert_eq!(channels.channel0.pid.parameters.kp, 12_345);
    assert_eq!(channels.channel0.pid.target, 29_000);
    assert_eq!(channels.adc.postfilters[0], Some(PostFilter::F25SPS));
}

#[test]
fn config_snapshot_zeroes_setpoint_under_pid() {
    let (mut channels, _handles) = make_channels();
    channels.set_i(0, 700_000);
    channels.channel0.pid_engaged = true;
    let config = ChannelConfig::new(&mut channels, 0);
    assert_eq!(config.i_set, 0);
    assert!(config.pid_engaged);
}

#[test]
fn average_code_is_the_integer_mean() {
    assert_eq!(average_code(&vec![7u16]), 7);
    assert_eq!(average_code(&vec![1u16, 2, 3, 4]), 2);
    assert_eq!(average_code(&vec![65_535u16; 64]), 65_535);
    assert_eq!(average_code(&vec![0u16, 999]), 499);
}

#[test]
fn current_from_sense_applies_gain_and_polarity() {
    // 100 mV over 0.4 ohm is 250 mA.
    assert_eq!(current_from_sense(1_600_000, 1_500_000, Polarity::Normal), 250_000);
    assert_eq!(current_from_sense(1_600_000, 1_500_000, Polarity::Reversed), -250_000);
    assert_eq!(current_from_sense(1_400_000, 1_500_000, Polarity::Normal), -250_000);
    assert_eq!(current_from_sense(1_500_000, 1_500_000, Polarity::Normal), 0);
}

#[test]
fn voltage_from_sense_offsets_and_scales() {
    assert_eq!(voltage_from_sense(1_700_000), 800_000);
    assert_eq!(voltage_from_sense(1_500_000), 0);
    assert_eq!(voltage_from_sense(1_250_000), -1_000_000);
}

#[test]
fn max_abs_current_picks_the_larger_magnitude() {
    assert_eq!(max_abs_current(-300_000, 250_000), 300_000);
    assert_eq!(max_abs_current(100, -100), 100);
    assert_eq!(max_abs_current(0, 0), 0);
}

#[test]
fn calibration_step_decides_stop_record_skip() {
    // Feedback above the target: overshoot, stop the sweep.
    assert_eq!(calibration_step(1_500_000, 1_500_001, 100_000_000), CalibrationStep::Overshoot);
    // Nonnegative error strictly better than the best: record.
    assert_eq!(calibration_step(1_500_000, 1_499_000, 2_000), CalibrationStep::Improved);
    assert_eq!(calibration_step(1_500_000, 1_500_000, 1), CalibrationStep::Improved);
    // Not an improvement: keep sweeping.
    assert_eq!(calibration_step(1_500_000, 1_499_000, 1_000), CalibrationStep::Unchanged);
    assert_eq!(calibration_step(1_500_000, 1_499_000, 500), CalibrationStep::Unchanged);
}

#[test]
fn summaries_reflect_state() {
    let (mut channels, _handles) = make_channels();
    channels.set_i(1, 150_000);
    channels.set_polarity(1, Polarity::Reversed);
    let summary = channels.output_summary(1);
    assert_eq!(summary.channel, 1);
    assert_eq!(summary.polarity, Polarity::Reversed);
    assert_eq!(summary.i_set, 150_000);
    let bp = channels.b_parameter_summary(1);
    assert_eq!(bp.params.r0, 10_000_000);
    channels.set_postfilter(1, Some(PostFilter::F16SPS));
    let pf = channels.postfilter_summary(1);
    assert_eq!(pf.rate, Some(16_667));
}
