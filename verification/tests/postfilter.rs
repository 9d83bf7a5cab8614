//! Postfilter menu selection and register-field decoding.

use thermostat::ad7172::{DigitalFilterOrder, Input, Mode, PostFilter, RefSource, MAX_VALUE};

#[test]
fn closest_selects_smallest_error() {
    // 21.0 samples per second: error 1.0 to the 20 SPS preset is the
    // smallest of the four, deterministically.
    assert_eq!(PostFilter::closest(21_000), Some(PostFilter::F20SPS));
}

#[test]
fn closest_covers_the_menu() {
    assert_eq!(PostFilter::closest(27_270), Some(PostFilter::F27SPS));
    assert_eq!(PostFilter::closest(100_000), Some(PostFilter::F27SPS));
    assert_eq!(PostFilter::closest(25_100), Some(PostFilter::F25SPS));
    assert_eq!(PostFilter::closest(17_000), Some(PostFilter::F16SPS));
    assert_eq!(PostFilter::closest(0), Some(PostFilter::F16SPS));
    // Halfway between two presets the earlier menu entry wins, because a
    // later candidate must be strictly better.
    assert_eq!(PostFilter::closest(22_500), Some(PostFilter::F25SPS));
}

#[test]
fn output_rates() {
    assert_eq!(PostFilter::F27SPS.output_rate(), Some(27_270));
    assert_eq!(PostFilter::F25SPS.output_rate(), Some(25_000));
    assert_eq!(PostFilter::F20SPS.output_rate(), Some(20_000));
    assert_eq!(PostFilter::F16SPS.output_rate(), Some(16_667));
    assert_eq!(PostFilter::Invalid.output_rate(), None);
}

#[test]
fn post_filter_from_bits() {
    assert_eq!(PostFilter::from(0b010), PostFilter::F27SPS);
    assert_eq!(PostFilter::from(0b011), PostFilter::F25SPS);
    assert_eq!(PostFilter::from(0b101), PostFilter::F20SPS);
    assert_eq!(PostFilter::from(0b110), PostFilter::F16SPS);
    assert_eq!(PostFilter::from(0b000), PostFilter::Invalid);
    assert_eq!(PostFilter::from(0b111), PostFilter::Invalid);
}

#[test]
fn mode_from_bits() {
    assert!(matches!(Mode::from(0b000), Mode::ContinuousConversion));
    assert!(matches!(Mode::from(0b001), Mode::SingleConversion));
    assert!(matches!(Mode::from(0b010), Mode::Standby));
    assert!(matches!(Mode::from(0b011), Mode::PowerDown));
    assert!(matches!(Mode::from(0b100), Mode::InternalOffsetCalibration));
    assert!(matches!(Mode::from(0b110), Mode::SystemOffsetCalibration));
    assert!(matches!(Mode::from(0b111), Mode::SystemGainCalibration));
    assert!(matches!(Mode::from(0b101), Mode::Invalid));
}

#[test]
fn input_from_bits_and_labels() {
    assert!(matches!(Input::from(0), Input::Ain0));
    assert!(matches!(Input::from(4), Input::Ain4));
    assert!(matches!(Input::from(17), Input::TemperaturePos));
    assert!(matches!(Input::from(22), Input::RefNeg));
    assert!(matches!(Input::from(5), Input::Invalid));
    assert_eq!(Input::Ain2.label(), "ain2");
    assert_eq!(Input::TemperatureNeg.label(), "temperature-");
    assert_eq!(Input::Invalid.label(), "<INVALID>");
}

#[test]
fn ref_source_from_bits_and_labels() {
    assert!(matches!(RefSource::from(0), RefSource::External));
    assert!(matches!(RefSource::from(1), RefSource::Internal));
    assert!(matches!(RefSource::from(2), RefSource::Avdd1MinusAvss));
    assert!(matches!(RefSource::from(3), RefSource::Invalid));
    assert_eq!(RefSource::External.label(), "external");
    assert_eq!(RefSource::Avdd1MinusAvss.label(), "avdd1-avss");
}

#[test]
fn digital_filter_order_from_bits() {
    assert!(matches!(DigitalFilterOrder::from(0b00), DigitalFilterOrder::Sinc5Sinc1));
    assert!(matches!(DigitalFilterOrder::from(0b11), DigitalFilterOrder::Sinc3));
    assert!(matches!(DigitalFilterOrder::from(0b01), DigitalFilterOrder::Invalid));
}

#[test]
fn sentinel_is_full_scale() {
    assert_eq!(MAX_VALUE, 0xFF_FFFF);
}
