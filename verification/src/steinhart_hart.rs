//! Steinhart-Hart equation parameters, in the single-beta form
//! `1/T = 1/T0 + ln(R/R0)/B` with `B` a plain scalar.
//!
//! Numerically this is the same relation as the B-parameter equation, which
//! differs only in unit bookkeeping; `lemma_models_agree` records that the
//! two variants are interchangeable.

use vstd::prelude::*;

verus! {

use crate::b_parameter;
use crate::thermo;

/// Steinhart-Hart equation parameters.
#[derive(Clone, Copy, Debug, PartialEq, Eq, Structural)]
pub struct Parameters {
    /// Base temperature, in millikelvin.
    pub t0: i64,
    /// Base resistance, in milliohms.
    pub r0: i64,
    /// Beta, in millikelvin.
    pub b: i64,
}

impl Parameters {
    /// The parameter ranges under which the conversion is defined.
    pub open spec fn wf(self) -> bool {
        thermo::model_wf(self.t0 as int, self.r0 as int, self.b as int)
    }

    /// Perform the resistance to temperature conversion.
    pub fn get_temperature(&self, r: i64) -> (t: i64)
        requires
            self.wf(),
            1 <= r,
        ensures
            t == thermo::temperature_spec(self.t0 as int, self.r0 as int, self.b as int, r as int),
            thermo::TEMP_MIN_MK <= t <= thermo::TEMP_MAX_MK,
    {
        thermo::temperature_from_resistance(self.t0, self.r0, self.b, r)
    }

    /// Perform the inverse conversion: the resistance this model shows at
    /// temperature `t` millikelvin.
    pub fn get_resistance(&self, t: i64) -> (r: i64)
        requires
            self.wf(),
            thermo::TEMP_MIN_MK <= t <= thermo::TEMP_MAX_MK,
        ensures
            r == thermo::resistance_spec(self.t0 as int, self.r0 as int, self.b as int, t as int),
            1 <= r,
    {
        thermo::resistance_from_temperature(self.t0, self.r0, self.b, t)
    }
}

impl Default for Parameters {
    /// 25 degrees Celsius, 10 kiloohms, beta 3800 kelvin.
    fn default() -> (r: Parameters)
        ensures
            r == (Parameters { t0: 298_150i64, r0: 10_000_000i64, b: 3_800_000i64 }),
            r.wf(),
    {
        Parameters { t0: 298_150, r0: 10_000_000, b: 3_800_000 }
    }
}

/// The two temperature-model variants compute identical conversions when
/// given the same parameters, in both directions: they are interchangeable.
pub proof fn lemma_models_agree(bp: b_parameter::Parameters, sh: Parameters, r: int, t: int)
    requires
        bp.t0 == sh.t0,
        bp.r0 == sh.r0,
        bp.b == sh.b,
    ensures
        thermo::temperature_spec(bp.t0 as int, bp.r0 as int, bp.b as int, r)
            == thermo::temperature_spec(sh.t0 as int, sh.r0 as int, sh.b as int, r),
        thermo::resistance_spec(bp.t0 as int, bp.r0 as int, bp.b as int, t)
            == thermo::resistance_spec(sh.t0 as int, sh.r0 as int, sh.b as int, t),
        bp.wf() == sh.wf(),
{
}

} // verus!
