//! The command data model the control engine consumes.
//!
//! The textual grammar that produces these values lives outside this
//! library; here each command is a tagged value with plain integer
//! quantities (microvolts, microamps, millikelvin, milliohms,
//! thousandths of a sample per second).

use vstd::prelude::*;

verus! {

use crate::pid;
use crate::thermo;

/// Static IPv4 interface configuration.
#[derive(Clone, Debug, PartialEq, Eq)]
pub struct Ipv4Config {
    pub address: [u8; 4],
    pub mask_len: u8,
    pub gateway: Option<[u8; 4]>,
}

/// Which summary a `show` command requests.
#[derive(Clone, Copy, Debug, PartialEq, Eq, Structural)]
pub enum ShowCommand {
    Input,
    Output,
    Pid,
    SteinhartHart,
    PostFilter,
    Ipv4,
}

/// Which PID scalar a `pid` command sets.
#[derive(Clone, Copy, Debug, PartialEq, Eq, Structural)]
pub enum PidParameter {
    Target,
    KP,
    KI,
    KD,
    OutputMin,
    OutputMax,
}

/// Which temperature-model scalar an `s-h` command sets.
#[derive(Clone, Copy, Debug, PartialEq, Eq, Structural)]
pub enum ShParameter {
    T0,
    B,
    R0,
}

/// Which output quantity an `output` command sets.
#[derive(Clone, Copy, Debug, PartialEq, Eq, Structural)]
pub enum PwmPin {
    ISet,
    MaxIPos,
    MaxINeg,
    MaxV,
}

/// The zero-current bias point of a channel: either track the driver chip's
/// reference voltage or hold a fixed override, in microvolts.
#[derive(Clone, Copy, Debug, PartialEq, Eq, Structural)]
pub enum CenterPoint {
    VRef,
    Override(i64),
}

impl CenterPoint {
    /// Override voltages must lie within the DAC's output range.
    pub open spec fn wf(self) -> bool {
        match self {
            CenterPoint::VRef => true,
            CenterPoint::Override(v) => 0 <= v <= 3_000_000,
        }
    }
}

/// Channel polarity: `Reversed` inverts the sign convention of current and
/// voltage relative to the physical actuator.
#[derive(Clone, Copy, Debug, PartialEq, Eq, Structural)]
pub enum Polarity {
    Normal,
    Reversed,
}

/// A control-engine command.
#[derive(Clone, Debug, PartialEq, Eq)]
pub enum Command {
    Quit,
    Reset,
    Show(ShowCommand),
    /// Enable PID control of the current setpoint.
    OutputPid { channel: usize },
    OutputPolarity { channel: usize, polarity: Polarity },
    /// Set an output quantity: microamps for the current pins,
    /// microvolts for the voltage limit.
    Output { channel: usize, pin: PwmPin, value: i64 },
    CenterPoint { channel: usize, center: CenterPoint },
    /// Set a PID scalar: gains in microamps per degree, target in
    /// millidegrees Celsius, output bounds in microamps.
    Pid { channel: usize, parameter: PidParameter, value: i64 },
    /// Set a temperature-model scalar: T0 and B in millikelvin,
    /// R0 in milliohms.
    SteinhartHart { channel: usize, parameter: ShParameter, value: i64 },
    /// Select the postfilter nearest a rate (in thousandths of a sample per
    /// second), or disable it.
    PostFilter { channel: usize, rate: Option<u32> },
}

impl Command {
    /// The machine limits a command's values must respect: a channel index
    /// that exists, PID scalars within the controller's arithmetic range,
    /// and model parameters within the conversion's domain.
    pub open spec fn wf(self) -> bool {
        match self {
            Command::Quit => true,
            Command::Reset => true,
            Command::Show(_) => true,
            Command::OutputPid { channel } => channel < 2,
            Command::OutputPolarity { channel, .. } => channel < 2,
            Command::Output { channel, pin, value } => channel < 2 && -0x4000_0000_0000_0000
                <= value <= 0x4000_0000_0000_0000,
            Command::CenterPoint { channel, center } => channel < 2 && center.wf(),
            Command::Pid { channel, parameter, value } => channel < 2 && -pid::PID_SCALAR_LIMIT
                <= value <= pid::PID_SCALAR_LIMIT,
            Command::SteinhartHart { channel, parameter, value } => channel < 2 && match parameter {
                ShParameter::T0 => thermo::TEMP_MIN_MK <= value <= thermo::TEMP_MAX_MK,
                ShParameter::B => value != 0 && -thermo::BETA_MAX_MK <= value
                    <= thermo::BETA_MAX_MK,
                ShParameter::R0 => 1 <= value <= thermo::R0_MAX_MOHM,
            },
            Command::PostFilter { channel, rate } => channel < 2,
        }
    }
}

} // verus!
