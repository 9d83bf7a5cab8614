//! PID controller behaviour: closed-loop settling on a simulated thermal
//! plant, the zero-gain law on concrete values, and the exact update
//! formula.

use thermostat::pid::{Controller, Parameters};

// Gains in microamps per degree (1e6 times the dimensionless gain),
// output bounds in micro-units.
const PARAMETERS: Parameters = Parameters {
    kp: 30_000,
    ki: 2_000,
    kd: 150_000,
    output_min: -10_000_000,
    output_max: 10_000_000,
};

#[test]
fn test_controller() {
    // Initial and ambient temperature
    const DEFAULT: f64 = 20.0;
    // Target temperature
    const TARGET: f64 = 40.0;
    // Control tolerance
    const ERROR: f64 = 0.01;
    // System response delay
    const DELAY: usize = 10;
    // Heat lost
    const LOSS: f64 = 0.05;
    // Limit simulation cycle, reaching this limit before settling fails test
    const CYCLE_LIMIT: u32 = 1000;

    let mut pid = Controller::new(PARAMETERS.clone());
    pid.target = (TARGET * 1000.0) as i64;

    let mut values = [DEFAULT; DELAY];
    let mut t = 0;
    let mut total_t = 0;
    let target = (TARGET - ERROR)..=(TARGET + ERROR);
    while !values.iter().all(|value| target.contains(value)) && total_t < CYCLE_LIMIT {
        let next_t = (t + 1) % DELAY;
        // Feed the oldest temperature
        let input_milli = (values[next_t] * 1000.0).round() as i64;
        let output = pid.update(input_milli) as f64 / 1_000_000.0;
        // Overwrite oldest with previous temperature - output
        values[next_t] = values[t] - output - (values[t] - DEFAULT) * LOSS;
        t = next_t;
        total_t += 1;
        println!("{}", values[t].to_string());
    }
    assert_ne!(CYCLE_LIMIT, total_t);
}

#[test]
fn zero_gains_give_clamped_zero() {
    let mut pid = Controller::new(Parameters {
        kp: 0,
        ki: 0,
        kd: 0,
        output_min: -2_000_000,
        output_max: 2_000_000,
    });
    for input in [-50_000i64, 0, 123, 999_999] {
        assert_eq!(pid.update(input), 0);
    }
    // With a positive lower bound, "zero" saturates at the bound.
    let mut floored = Controller::new(Parameters {
        kp: 0,
        ki: 0,
        kd: 0,
        output_min: 300,
        output_max: 2_000_000,
    });
    assert_eq!(floored.update(77), 300);
    assert_eq!(floored.update(-3_000), 300);
}

#[test]
fn pinned_bounds_pin_output_to_zero() {
    let mut pid = Controller::new(Parameters {
        kp: 7,
        ki: 0,
        kd: 0,
        output_min: 0,
        output_max: 0,
    });
    // Exercise history so y1 is not trivially zero, then zero the gains.
    pid.update(500_000);
    pid.parameters.kp = 0;
    for input in [-1_000_000i64, -1, 0, 1, 1_000_000] {
        assert_eq!(pid.update(input), 0);
    }
}

#[test]
fn update_follows_difference_equation() {
    let mut pid = Controller::new(Parameters {
        kp: 1_000,
        ki: 100,
        kd: 10_000,
        output_min: -1_000_000_000,
        output_max: 1_000_000_000,
    });
    pid.target = 2_000;
    // x1 = x2 = y1 = 0, so y0 = (-ki*target + x0*(kp+ki+kd)) / 1000.
    let x0: i64 = 3_000;
    let expected = (-100i64 * 2_000 + x0 * (1_000 + 100 + 10_000)) / 1_000;
    assert_eq!(pid.update(x0), expected);
    // Second step uses the shifted history.
    let x1 = x0;
    let y1 = expected;
    let x0b: i64 = 1_500;
    let expected2 = y1 + (-100i64 * 2_000 + x0b * 11_100 - x1 * (1_000 + 2 * 10_000)) / 1_000;
    assert_eq!(pid.update(x0b), expected2);
}

#[test]
fn output_is_clamped_into_bounds() {
    let mut pid = Controller::new(Parameters {
        kp: 1_000_000,
        ki: 0,
        kd: 0,
        output_min: -2_000_000,
        output_max: 2_000_000,
    });
    // Huge proportional response saturates at the output limit.
    assert_eq!(pid.update(1_000_000), 2_000_000);
    assert_eq!(pid.update(-100_000_000), -2_000_000);
}

#[test]
fn summary_reflects_settings() {
    let mut pid = Controller::new(PARAMETERS.clone());
    pid.target = 36_500;
    let summary = pid.summary(1);
    assert_eq!(summary.channel, 1);
    assert_eq!(summary.parameters, PARAMETERS);
    assert_eq!(summary.target, 36_500);
}
