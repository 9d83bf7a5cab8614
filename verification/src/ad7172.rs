//! Data model of the precision ADC: register-field enumerations and the
//! digital postfilter menu.
//!
//! The wire-level SPI driver is hardware-binding code outside this library;
//! what lives here is the pure logic the control engine relies on - the
//! sentinel full-scale code, the decoding of register fields, and the
//! nearest-rate postfilter selection.

use vstd::prelude::*;

verus! {

/// Largest representable ADC code (24 bits). A raw sample equal to this
/// value is the "no thermistor connected" sentinel, not a real reading.
pub const MAX_VALUE: u32 = 0xFF_FFFF;

/// ADC operating mode register field.
#[derive(Clone, Copy, Debug, PartialEq, Eq, Structural)]
pub enum Mode {
    ContinuousConversion,
    SingleConversion,
    Standby,
    PowerDown,
    InternalOffsetCalibration,
    Invalid,
    SystemOffsetCalibration,
    SystemGainCalibration,
}

/// The mode encoded by a register field value.
pub open spec fn mode_from_bits(x: u8) -> Mode {
    if x == 0 {
        Mode::ContinuousConversion
    } else if x == 1 {
        Mode::SingleConversion
    } else if x == 2 {
        Mode::Standby
    } else if x == 3 {
        Mode::PowerDown
    } else if x == 4 {
        Mode::InternalOffsetCalibration
    } else if x == 6 {
        Mode::SystemOffsetCalibration
    } else if x == 7 {
        Mode::SystemGainCalibration
    } else {
        Mode::Invalid
    }
}

impl From<u8> for Mode {
    fn from(x: u8) -> (r: Mode) {
        match x {
            0 => Mode::ContinuousConversion,
            1 => Mode::SingleConversion,
            2 => Mode::Standby,
            3 => Mode::PowerDown,
            4 => Mode::InternalOffsetCalibration,
            6 => Mode::SystemOffsetCalibration,
            7 => Mode::SystemGainCalibration,
            _ => Mode::Invalid,
        }
    }
}

impl vstd::std_specs::convert::FromSpecImpl<u8> for Mode {
    open spec fn obeys_from_spec() -> bool {
        true
    }

    open spec fn from_spec(x: u8) -> Mode {
        mode_from_bits(x)
    }
}

/// ADC input pin selector.
#[derive(Clone, Copy, Debug, PartialEq, Eq, Structural)]
pub enum Input {
    Ain0,
    Ain1,
    Ain2,
    Ain3,
    Ain4,
    TemperaturePos,
    TemperatureNeg,
    AnalogSupplyPos,
    AnalogSupplyNeg,
    RefPos,
    RefNeg,
    Invalid,
}

/// The input encoded by a register field value.
pub open spec fn input_from_bits(x: u8) -> Input {
    if x == 0 {
        Input::Ain0
    } else if x == 1 {
        Input::Ain1
    } else if x == 2 {
        Input::Ain2
    } else if x == 3 {
        Input::Ain3
    } else if x == 4 {
        Input::Ain4
    } else if x == 17 {
        Input::TemperaturePos
    } else if x == 18 {
        Input::TemperatureNeg
    } else if x == 19 {
        Input::AnalogSupplyPos
    } else if x == 20 {
        Input::AnalogSupplyNeg
    } else if x == 21 {
        Input::RefPos
    } else if x == 22 {
        Input::RefNeg
    } else {
        Input::Invalid
    }
}

impl From<u8> for Input {
    fn from(x: u8) -> (r: Input) {
        match x {
            0 => Input::Ain0,
            1 => Input::Ain1,
            2 => Input::Ain2,
            3 => Input::Ain3,
            4 => Input::Ain4,
            17 => Input::TemperaturePos,
            18 => Input::TemperatureNeg,
            19 => Input::AnalogSupplyPos,
            20 => Input::AnalogSupplyNeg,
            21 => Input::RefPos,
            22 => Input::RefNeg,
            _ => Input::Invalid,
        }
    }
}

impl vstd::std_specs::convert::FromSpecImpl<u8> for Input {
    open spec fn obeys_from_spec() -> bool {
        true
    }

    open spec fn from_spec(x: u8) -> Input {
        input_from_bits(x)
    }
}

impl Input {
    /// Human-readable pin name.
    pub fn label(&self) -> (r: &'static str)
        ensures
            r@ == input_label_spec(*self),
    {
        match self {
            Input::Ain0 => "ain0",
            Input::Ain1 => "ain1",
            Input::Ain2 => "ain2",
            Input::Ain3 => "ain3",
            Input::Ain4 => "ain4",
            Input::TemperaturePos => "temperature+",
            Input::TemperatureNeg => "temperature-",
            Input::AnalogSupplyPos => "analogsupply+",
            Input::AnalogSupplyNeg => "analogsupply-",
            Input::RefPos => "ref+",
            Input::RefNeg => "ref-",
            Input::Invalid => "<INVALID>",
        }
    }
}

pub open spec fn input_label_spec(i: Input) -> Seq<char> {
    match i {
        Input::Ain0 => "ain0"@,
        Input::Ain1 => "ain1"@,
        Input::Ain2 => "ain2"@,
        Input::Ain3 => "ain3"@,
        Input::Ain4 => "ain4"@,
        Input::TemperaturePos => "temperature+"@,
        Input::TemperatureNeg => "temperature-"@,
        Input::AnalogSupplyPos => "analogsupply+"@,
        Input::AnalogSupplyNeg => "analogsupply-"@,
        Input::RefPos => "ref+"@,
        Input::RefNeg => "ref-"@,
        Input::Invalid => "<INVALID>"@,
    }
}

/// Reference source for ADC conversion.
#[derive(Clone, Copy, Debug, PartialEq, Eq, Structural)]
pub enum RefSource {
    /// External reference.
    External,
    /// Internal 2.5 V reference.
    Internal,
    /// Analog supply span.
    Avdd1MinusAvss,
    Invalid,
}

/// The reference source encoded by a register field value.
pub open spec fn ref_source_from_bits(x: u8) -> RefSource {
    if x == 0 {
        RefSource::External
    } else if x == 1 {
        RefSource::Internal
    } else if x == 2 {
        RefSource::Avdd1MinusAvss
    } else {
        RefSource::Invalid
    }
}

impl From<u8> for RefSource {
    fn from(x: u8) -> (r: RefSource) {
        match x {
            0 => RefSource::External,
            1 => RefSource::Internal,
            2 => RefSource::Avdd1MinusAvss,
            _ => RefSource::Invalid,
        }
    }
}

impl vstd::std_specs::convert::FromSpecImpl<u8> for RefSource {
    open spec fn obeys_from_spec() -> bool {
        true
    }

    open spec fn from_spec(x: u8) -> RefSource {
        ref_source_from_bits(x)
    }
}

impl RefSource {
    /// Human-readable source name.
    pub fn label(&self) -> (r: &'static str)
        ensures
            r@ == ref_source_label_spec(*self),
    {
        match self {
            RefSource::External => "external",
            RefSource::Internal => "internal",
            RefSource::Avdd1MinusAvss => "avdd1-avss",
            RefSource::Invalid => "<INVALID>",
        }
    }
}

pub open spec fn ref_source_label_spec(s: RefSource) -> Seq<char> {
    match s {
        RefSource::External => "external"@,
        RefSource::Internal => "internal"@,
        RefSource::Avdd1MinusAvss => "avdd1-avss"@,
        RefSource::Invalid => "<INVALID>"@,
    }
}

/// Postfilter presets: simultaneous rejection of 50 Hz and 60 Hz mains hum,
/// trading output data rate for rejection.
#[derive(Clone, Copy, Debug, PartialEq, Eq, Structural)]
pub enum PostFilter {
    /// 27.27 samples per second, 47 dB rejection.
    F27SPS,
    /// 25 samples per second, 62 dB rejection.
    F25SPS,
    /// 20 samples per second, 85 dB rejection.
    F20SPS,
    /// 16.667 samples per second, 90 dB rejection.
    F16SPS,
    Invalid,
}

/// Output data rate of each preset, in thousandths of a sample per second.
pub open spec fn output_rate_spec(f: PostFilter) -> Option<u32> {
    match f {
        PostFilter::F27SPS => Some(27_270u32),
        PostFilter::F25SPS => Some(25_000u32),
        PostFilter::F20SPS => Some(20_000u32),
        PostFilter::F16SPS => Some(16_667u32),
        PostFilter::Invalid => None,
    }
}

/// `|rate - preset rate|` for a valid preset.
pub open spec fn rate_error(rate: int, f: PostFilter) -> int {
    let pr = output_rate_spec(f)->Some_0 as int;
    if rate >= pr {
        rate - pr
    } else {
        pr - rate
    }
}

/// The preset a nearest-rate scan selects: the menu is walked in order and a
/// candidate replaces the incumbent only when strictly better, so the result
/// is deterministic.
pub open spec fn closest_spec(rate: int) -> PostFilter {
    let b1 = PostFilter::F27SPS;
    let b2 = if rate_error(rate, PostFilter::F25SPS) < rate_error(rate, b1) {
        PostFilter::F25SPS
    } else {
        b1
    };
    let b3 = if rate_error(rate, PostFilter::F20SPS) < rate_error(rate, b2) {
        PostFilter::F20SPS
    } else {
        b2
    };
    if rate_error(rate, PostFilter::F16SPS) < rate_error(rate, b3) {
        PostFilter::F16SPS
    } else {
        b3
    }
}

impl PostFilter {
    /// Select the preset whose output data rate is nearest to `rate`
    /// (in thousandths of a sample per second): the chosen preset's error is
    /// no larger than any other preset's.
    pub fn closest(rate: u32) -> (r: Option<PostFilter>)
        ensures
            r == Some(closest_spec(rate as int)),
            forall|f: PostFilter|
                output_rate_spec(f) is Some ==> rate_error(rate as int, closest_spec(rate as int))
                    <= #[trigger] rate_error(rate as int, f),
    {
        let ri: i64 = rate as i64;
        let mut best: PostFilter = PostFilter::F27SPS;
        let mut best_err: i64 = if ri >= 27_270 {
            ri - 27_270
        } else {
            27_270 - ri
        };
        let e25: i64 = if ri >= 25_000 {
            ri - 25_000
        } else {
            25_000 - ri
        };
        if e25 < best_err {
            best = PostFilter::F25SPS;
            best_err = e25;
        }
        let e20: i64 = if ri >= 20_000 {
            ri - 20_000
        } else {
            20_000 - ri
        };
        if e20 < best_err {
            best = PostFilter::F20SPS;
            best_err = e20;
        }
        let e16: i64 = if ri >= 16_667 {
            ri - 16_667
        } else {
            16_667 - ri
        };
        if e16 < best_err {
            best = PostFilter::F16SPS;
        }
        Some(best)
    }

    /// Output data rate in thousandths of a sample per second, or nothing
    /// for the invalid encoding.
    pub fn output_rate(&self) -> (r: Option<u32>)
        ensures
            r == output_rate_spec(*self),
    {
        match self {
            PostFilter::F27SPS => Some(27_270),
            PostFilter::F25SPS => Some(25_000),
            PostFilter::F20SPS => Some(20_000),
            PostFilter::F16SPS => Some(16_667),
            PostFilter::Invalid => None,
        }
    }
}

/// The postfilter encoded by a register field value.
pub open spec fn post_filter_from_bits(x: u8) -> PostFilter {
    if x == 2 {
        PostFilter::F27SPS
    } else if x == 3 {
        PostFilter::F25SPS
    } else if x == 5 {
        PostFilter::F20SPS
    } else if x == 6 {
        PostFilter::F16SPS
    } else {
        PostFilter::Invalid
    }
}

impl From<u8> for PostFilter {
    fn from(x: u8) -> (r: PostFilter) {
        match x {
            2 => PostFilter::F27SPS,
            3 => PostFilter::F25SPS,
            5 => PostFilter::F20SPS,
            6 => PostFilter::F16SPS,
            _ => PostFilter::Invalid,
        }
    }
}

impl vstd::std_specs::convert::FromSpecImpl<u8> for PostFilter {
    open spec fn obeys_from_spec() -> bool {
        true
    }

    open spec fn from_spec(x: u8) -> PostFilter {
        post_filter_from_bits(x)
    }
}

/// Digital filter order register field.
#[derive(Clone, Copy, Debug, PartialEq, Eq, Structural)]
pub enum DigitalFilterOrder {
    Sinc5Sinc1,
    Sinc3,
    Invalid,
}

/// The filter order encoded by a register field value.
pub open spec fn digital_filter_order_from_bits(x: u8) -> DigitalFilterOrder {
    if x == 0 {
        DigitalFilterOrder::Sinc5Sinc1
    } else if x == 3 {
        DigitalFilterOrder::Sinc3
    } else {
        DigitalFilterOrder::Invalid
    }
}

impl From<u8> for DigitalFilterOrder {
    fn from(x: u8) -> (r: DigitalFilterOrder) {
        match x {
            0 => DigitalFilterOrder::Sinc5Sinc1,
            3 => DigitalFilterOrder::Sinc3,
            _ => DigitalFilterOrder::Invalid,
        }
    }
}

impl vstd::std_specs::convert::FromSpecImpl<u8> for DigitalFilterOrder {
    open spec fn obeys_from_spec() -> bool {
        true
    }

    open spec fn from_spec(x: u8) -> DigitalFilterOrder {
        digital_filter_order_from_bits(x)
    }
}

} // verus!
