//! B-parameter equation for NTC thermistors: `1/T = 1/T0 + ln(R/R0)/B`.

use vstd::prelude::*;

verus! {

use crate::thermo;

/// B-parameter equation parameters.
#[derive(Clone, Copy, Debug, PartialEq, Eq, Structural)]
pub struct Parameters {
    /// Base temperature, in millikelvin.
    pub t0: i64,
    /// Thermistor resistance at the base temperature, in milliohms.
    pub r0: i64,
    /// Beta (average slope of ln R against 1/T), in millikelvin.
    pub b: i64,
}

impl Parameters {
    /// The parameter ranges under which the conversion is defined.
    pub open spec fn wf(self) -> bool {
        thermo::model_wf(self.t0 as int, self.r0 as int, self.b as int)
    }

    /// Perform the resistance to temperature conversion.
    pub fn get_temperature(&self, r: i64) -> (t: i64)
        requires
            self.wf(),
            1 <= r,
        ensures
            t == thermo::temperature_spec(self.t0 as int, self.r0 as int, self.b as int, r as int),
            thermo::TEMP_MIN_MK <= t <= thermo::TEMP_MAX_MK,
    {
        thermo::temperature_from_resistance(self.t0, self.r0, self.b, r)
    }

    /// Perform the inverse conversion: the resistance this model shows at
    /// temperature `t` millikelvin.
    pub fn get_resistance(&self, t: i64) -> (r: i64)
        requires
            self.wf(),
            thermo::TEMP_MIN_MK <= t <= thermo::TEMP_MAX_MK,
        ensures
            r == thermo::resistance_spec(self.t0 as int, self.r0 as int, self.b as int, t as int),
            1 <= r,
    {
        thermo::resistance_from_temperature(self.t0, self.r0, self.b, t)
    }
}

impl Default for Parameters {
    /// 25 degrees Celsius, 10 kiloohms, beta 3800 kelvin.
    fn default() -> (r: Parameters)
        ensures
            r == (Parameters { t0: 298_150i64, r0: 10_000_000i64, b: 3_800_000i64 }),
            r.wf(),
    {
        Parameters { t0: 298_150, r0: 10_000_000, b: 3_800_000 }
    }
}

} // verus!
