//! Discrete difference-equation PID controller with output clamping.
//!
//! The controller state is exactly three history scalars (the two previous
//! inputs and the previous output), so there is no unbounded accumulator:
//! every output is clamped into `[output_min, output_max]` and the next
//! output builds on the clamped value, which gives anti-windup behaviour
//! without separate integrator bookkeeping.
//!
//! Units: inputs are temperatures in millidegrees Celsius, outputs are
//! currents in microamps, gains are in microamps per degree Celsius, and the
//! target is in millidegrees Celsius. One millidegree times one microamp per
//! degree is a nanoamp, hence the division by 1000 in the update law.

use vstd::prelude::*;

verus! {

use crate::clamp_i64;

/// Magnitude bound on every PID scalar (gains, target, bounds, history).
/// It is far beyond any physical value and keeps all intermediate products
/// of the update law inside `i128`.
pub const PID_SCALAR_LIMIT: i64 = 1_000_000_000_000;

/// PID gain coefficients and output limits.
#[derive(Clone, Copy, Debug, PartialEq, Eq, Structural)]
pub struct Parameters {
    /// Gain coefficient for the proportional term, in microamps per degree.
    pub kp: i64,
    /// Gain coefficient for the integral term, in microamps per degree.
    pub ki: i64,
    /// Gain coefficient for the derivative term, in microamps per degree.
    pub kd: i64,
    /// Output limit minimum, in microamps.
    pub output_min: i64,
    /// Output limit maximum, in microamps.
    pub output_max: i64,
}

impl Parameters {
    pub open spec fn wf(self) -> bool {
        &&& -PID_SCALAR_LIMIT <= self.kp <= PID_SCALAR_LIMIT
        &&& -PID_SCALAR_LIMIT <= self.ki <= PID_SCALAR_LIMIT
        &&& -PID_SCALAR_LIMIT <= self.kd <= PID_SCALAR_LIMIT
        &&& -PID_SCALAR_LIMIT <= self.output_min <= PID_SCALAR_LIMIT
        &&& -PID_SCALAR_LIMIT <= self.output_max <= PID_SCALAR_LIMIT
    }
}

impl Default for Parameters {
    /// Zero gains; output limited to the device's full current range.
    fn default() -> (r: Parameters)
        ensures
            r == (Parameters {
                kp: 0,
                ki: 0,
                kd: 0,
                output_min: -2_000_000i64,
                output_max: 2_000_000i64,
            }),
    {
        Parameters { kp: 0, ki: 0, kd: 0, output_min: -2_000_000, output_max: 2_000_000 }
    }
}

/// Division by 1000 rounding toward zero, as the executable `/` does.
pub open spec fn div1000_trunc(n: int) -> int {
    if n >= 0 {
        n / 1000
    } else {
        -((-n) / 1000)
    }
}

/// PID controller: parameters, target, and the three history scalars.
#[derive(Clone, Copy, Debug, PartialEq, Eq, Structural)]
pub struct Controller {
    pub parameters: Parameters,
    /// Target temperature, in millidegrees Celsius.
    pub target: i64,
    /// Target used by the previous update.
    pub u1: i64,
    /// Previous input, in millidegrees Celsius.
    pub x1: i64,
    /// Input before the previous one, in millidegrees Celsius.
    pub x2: i64,
    /// Previous (clamped) output, in microamps.
    pub y1: i64,
}

/// The unclamped update law, over mathematical integers:
/// `y0' = y1 - ki*target + x0*(kp+ki+kd) - x1*(kp+2*kd) + x2*kd`,
/// with the gain products scaled from nanoamps down to microamps.
pub open spec fn raw_output(c: Controller, input: int) -> int {
    c.y1 + div1000_trunc(
        input * (c.parameters.kp + c.parameters.ki + c.parameters.kd) - c.parameters.ki * c.target
            - c.x1 * (c.parameters.kp + 2 * c.parameters.kd) + c.x2 * c.parameters.kd,
    )
}

/// The clamped output of one update.
pub open spec fn update_output(c: Controller, input: int) -> int {
    clamp_i64(raw_output(c, input), c.parameters.output_min as int, c.parameters.output_max as int)
}

/// The controller state after one update on `input`.
pub open spec fn updated(c: Controller, input: int) -> Controller {
    Controller {
        parameters: c.parameters,
        target: c.target,
        u1: c.target,
        x1: input as i64,
        x2: c.x1,
        y1: update_output(c, input) as i64,
    }
}

impl Controller {
    pub open spec fn wf(self) -> bool {
        &&& self.parameters.wf()
        &&& -PID_SCALAR_LIMIT <= self.target <= PID_SCALAR_LIMIT
        &&& -PID_SCALAR_LIMIT <= self.u1 <= PID_SCALAR_LIMIT
        &&& -PID_SCALAR_LIMIT <= self.x1 <= PID_SCALAR_LIMIT
        &&& -PID_SCALAR_LIMIT <= self.x2 <= PID_SCALAR_LIMIT
        &&& -PID_SCALAR_LIMIT <= self.y1 <= PID_SCALAR_LIMIT
    }

    pub fn new(parameters: Parameters) -> (r: Controller)
        ensures
            r == (Controller { parameters, target: 0, u1: 0, x1: 0, x2: 0, y1: 0 }),
    {
        Controller { parameters, target: 0, u1: 0, x1: 0, x2: 0, y1: 0 }
    }

    /// One control tick: feed the current input through the difference
    /// equation, clamp the result into the output limits, and shift the
    /// history cells.
    pub fn update(&mut self, input: i64) -> (output: i64)
        requires
            old(self).wf(),
            -PID_SCALAR_LIMIT <= input <= PID_SCALAR_LIMIT,
        ensures
            final(self).wf(),
            *final(self) == updated(*old(self), input as int),
            output == update_output(*old(self), input as int),
            final(self).parameters.output_min <= output <= final(self).parameters.output_max
                || final(self).parameters.output_min > final(self).parameters.output_max,
    {
        proof {
            let lim = PID_SCALAR_LIMIT as int;
            crate::lemma_mul_bound(self.parameters.ki as int, self.target as int, lim, lim);
            crate::lemma_mul_bound(
                input as int,
                self.parameters.kp + self.parameters.ki + self.parameters.kd,
                lim,
                3 * lim,
            );
            crate::lemma_mul_bound(
                self.x1 as int,
                self.parameters.kp + 2 * self.parameters.kd,
                lim,
                3 * lim,
            );
            crate::lemma_mul_bound(self.x2 as int, self.parameters.kd as int, lim, lim);
        }
        let kp = self.parameters.kp as i128;
        let ki = self.parameters.ki as i128;
        let kd = self.parameters.kd as i128;
        let num: i128 = (input as i128) * (kp + ki + kd) - ki * (self.target as i128) - (
        self.x1 as i128) * (kp + 2 * kd) + (self.x2 as i128) * kd;
        let scaled: i128 = if num >= 0 {
            num / 1000
        } else {
            -((-num) / 1000)
        };
        let y0: i128 = self.y1 as i128 + scaled;
        let lo = self.parameters.output_min as i128;
        let hi = self.parameters.output_max as i128;
        let clamped: i128 = if y0 > hi {
            hi
        } else if y0 < lo {
            lo
        } else {
            y0
        };
        let output = clamped as i64;
        self.x2 = self.x1;
        self.x1 = input;
        self.u1 = self.target;
        self.y1 = output;
        output
    }

    pub fn summary(&self, channel: usize) -> (r: Summary)
        ensures
            r == (Summary { channel, parameters: self.parameters, target: self.target }),
    {
        Summary { channel, parameters: self.parameters, target: self.target }
    }
}

/// Per-channel PID settings snapshot for reporting.
#[derive(Clone, Copy, Debug, PartialEq, Eq, Structural)]
pub struct Summary {
    pub channel: usize,
    pub parameters: Parameters,
    /// Target temperature, in millidegrees Celsius.
    pub target: i64,
}

/// With all gains zero the difference equation contributes nothing, so a
/// freshly started controller (previous output zero) emits exactly
/// `clamp(0, output_min, output_max)` for every input, and keeps emitting it:
/// the stored previous output is again `clamp(0, output_min, output_max)`.
pub proof fn lemma_pid_zero_gains(c: Controller, input: int)
    requires
        c.wf(),
        c.parameters.kp == 0,
        c.parameters.ki == 0,
        c.parameters.kd == 0,
        c.parameters.output_min <= c.parameters.output_max,
        c.y1 == 0 || c.y1 == clamp_i64(
            0,
            c.parameters.output_min as int,
            c.parameters.output_max as int,
        ),
    ensures
        update_output(c, input) == clamp_i64(
            0,
            c.parameters.output_min as int,
            c.parameters.output_max as int,
        ),
        updated(c, input).y1 == clamp_i64(
            0,
            c.parameters.output_min as int,
            c.parameters.output_max as int,
        ),
{
    lemma_zero_gain_terms(c, input);
}

/// With `output_min == output_max == 0` and all gains zero, every output is
/// exactly zero, whatever the input and whatever history the controller
/// carries.
pub proof fn lemma_pid_pinned_output(c: Controller, input: int)
    requires
        c.wf(),
        c.parameters.kp == 0,
        c.parameters.ki == 0,
        c.parameters.kd == 0,
        c.parameters.output_min == 0,
        c.parameters.output_max == 0,
    ensures
        update_output(c, input) == 0,
{
    lemma_zero_gain_terms(c, input);
}

/// With all gains zero, the gain-weighted sum in the update law vanishes, so
/// the unclamped output is exactly the previous output.
proof fn lemma_zero_gain_terms(c: Controller, input: int)
    by (nonlinear_arith)
    requires
        c.parameters.kp == 0,
        c.parameters.ki == 0,
        c.parameters.kd == 0,
    ensures
        raw_output(c, input) == c.y1,
{
}

} // verus!
