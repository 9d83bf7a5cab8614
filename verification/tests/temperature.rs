//! Temperature conversion: round trips between resistance and temperature
//! for both model variants, default-parameter values against the closed
//! form, and the fixed-point exponential itself.

use thermostat::b_parameter;
use thermostat::steinhart_hart;
use thermostat::thermo::{exp_scaled, ln_scaled, EXP_ONE};

/// Closed-form reference conversion in floating point: `R0*e^(B(1/T-1/T0))`.
fn reference_resistance_mohm(t0_mk: i64, r0_mohm: i64, b_mk: i64, t_mk: i64) -> f64 {
    let t0 = t0_mk as f64 / 1000.0;
    let b = b_mk as f64 / 1000.0;
    let t = t_mk as f64 / 1000.0;
    r0_mohm as f64 * (b * (1.0 / t - 1.0 / t0)).exp()
}

#[test]
fn resistance_matches_closed_form() {
    let bp = b_parameter::Parameters::default();
    for t_mk in [253_150i64, 273_150, 298_150, 323_150, 373_150] {
        let r = bp.get_resistance(t_mk);
        let expected = reference_resistance_mohm(bp.t0, bp.r0, bp.b, t_mk);
        let rel = (r as f64 - expected).abs() / expected;
        assert!(rel < 1e-4, "t={} r={} expected={}", t_mk, r, expected);
    }
}

#[test]
fn temperature_matches_closed_form() {
    let bp = b_parameter::Parameters::default();
    // 5 kiloohms should land near 41.5 degrees Celsius for B=3800, and
    // 10 kiloohms at exactly the base temperature.
    let t_base = bp.get_temperature(10_000_000);
    assert!((t_base - 298_150).abs() < 50, "t_base={}", t_base);
    let t_5k = bp.get_temperature(5_000_000);
    // 1/T = 1/298.15 + ln(0.5)/3800
    let expected = 1.0 / (1.0 / 298.15 + (0.5f64).ln() / 3800.0) * 1000.0;
    assert!((t_5k as f64 - expected).abs() < 50.0, "t={} expected={}", t_5k, expected);
}

#[test]
fn round_trip_b_parameter() {
    let bp = b_parameter::Parameters::default();
    for t_mk in [233_150i64, 263_150, 298_150, 313_150, 353_150, 423_150] {
        let r = bp.get_resistance(t_mk);
        let t_back = bp.get_temperature(r);
        assert!(
            (t_back - t_mk).abs() <= 50,
            "round trip {} -> {} -> {}",
            t_mk,
            r,
            t_back
        );
    }
}

#[test]
fn round_trip_steinhart_hart() {
    let sh = steinhart_hart::Parameters::default();
    for t_mk in [233_150i64, 263_150, 298_150, 313_150, 353_150, 423_150] {
        let r = sh.get_resistance(t_mk);
        let t_back = sh.get_temperature(r);
        assert!(
            (t_back - t_mk).abs() <= 50,
            "round trip {} -> {} -> {}",
            t_mk,
            r,
            t_back
        );
    }
}

#[test]
fn model_variants_agree() {
    let bp = b_parameter::Parameters {
        t0: 298_150,
        r0: 22_000_000,
        b: 3_950_000,
    };
    let sh = steinhart_hart::Parameters {
        t0: 298_150,
        r0: 22_000_000,
        b: 3_950_000,
    };
    for r in [1_000_000i64, 8_000_000, 22_000_000, 100_000_000] {
        assert_eq!(bp.get_temperature(r), sh.get_temperature(r));
    }
    for t in [263_150i64, 298_150, 330_000] {
        assert_eq!(bp.get_resistance(t), sh.get_resistance(t));
    }
}

#[test]
fn conversions_are_monotone_for_positive_beta() {
    let bp = b_parameter::Parameters::default();
    // Resistance falls as temperature rises.
    let mut last_r = bp.get_resistance(233_150);
    for t_mk in [253_150i64, 298_150, 343_150, 423_150] {
        let r = bp.get_resistance(t_mk);
        assert!(r <= last_r, "resistance rose at {}", t_mk);
        last_r = r;
    }
    // Temperature falls as resistance rises.
    let mut last_t = bp.get_temperature(1_000_000);
    for r_mohm in [3_000_000i64, 10_000_000, 40_000_000, 200_000_000] {
        let t = bp.get_temperature(r_mohm);
        assert!(t <= last_t, "temperature rose at {}", r_mohm);
        last_t = t;
    }
}

#[test]
fn negative_beta_model_is_increasing() {
    // A (non-physical) positive-coefficient sensor: resistance grows with
    // temperature, and the round trip still holds.
    let bp = b_parameter::Parameters {
        t0: 298_150,
        r0: 10_000_000,
        b: -3_800_000,
    };
    let r_cold = bp.get_resistance(263_150);
    let r_hot = bp.get_resistance(333_150);
    assert!(r_cold < bp.r0 && bp.r0 < r_hot);
    let t_back = bp.get_temperature(r_hot);
    assert!((t_back - 333_150).abs() <= 50, "t_back={}", t_back);
}

#[test]
fn exp_scaled_reference_points() {
    // e^0 == 1.0 in the 2^30 fixed-point scale.
    assert_eq!(exp_scaled(0), EXP_ONE);
    // One natural-log unit of 2: e^(ln 2) == 2.
    let ln2_femto: i64 = 693_147_180_559_945;
    let two = exp_scaled(ln2_femto) as f64;
    assert!((two / EXP_ONE as f64 - 2.0).abs() < 1e-4);
    // e^1 in fixed point.
    let e = exp_scaled(1_000_000_000_000_000) as f64;
    assert!((e / EXP_ONE as f64 - 1.0f64.exp()).abs() < 1e-4);
    // Deep negative arguments decay toward zero.
    assert!(exp_scaled(-21_000_000_000_000_000) <= 1);
}

#[test]
fn ln_scaled_inverts_exp_scaled() {
    // Stay where the fixed-point exponential resolves finer than a
    // microneper; far in the decayed tail the inverse is necessarily
    // coarser.
    for d in [
        -5_000_000_000_000_000i64,
        -1_000_000_000_000_000,
        0,
        2_500_000_000_000_000,
        18_000_000_000_000_000,
    ] {
        let y = exp_scaled(d);
        let back = ln_scaled(y);
        // Within a microneper of the original argument.
        assert!(
            (back - d).abs() <= 1_000_000_000,
            "d={} y={} back={}",
            d,
            y,
            back
        );
    }
}
