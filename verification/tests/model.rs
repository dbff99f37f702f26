use class_rust::fixed::{Fp, SCALE};
use class_rust::model::{Config, InitialState, MixedLayer, StepError, TimeControl, CLASS};

fn fp(m: i128) -> Fp {
    Fp::from_mantissa(m)
}

fn config(
    dt: i128,
    h_0: i128,
    theta_0: i128,
    dtheta_0: i128,
    q_0: i128,
    dq_0: i128,
    ml: MixedLayer,
) -> Config {
    Config {
        time_control: TimeControl { runtime: fp(3600 * SCALE), dt: fp(dt) },
        initial_state: InitialState {
            h_0: fp(h_0),
            theta_0: fp(theta_0),
            dtheta_0: fp(dtheta_0),
            q_0: fp(q_0),
            dq_0: fp(dq_0),
        },
        mixed_layer: ml,
    }
}

fn zero_mixed_layer() -> MixedLayer {
    MixedLayer {
        wtheta: fp(0),
        wq: fp(0),
        advtheta: fp(0),
        advq: fp(0),
        gammatheta: fp(0),
        gammaq: fp(0),
        beta: fp(0),
        div_u: fp(0),
    }
}

/// The configuration of the worked single-step example: dt = 60 s,
/// h = 200 m, theta = 288 K, dtheta = 1 K, q = 0.008, dq = 0.001,
/// wtheta = 0.1, wq = 0.0001, beta = 0.2, gammatheta = 0.006,
/// gammaq = 0.000002, everything else zero.
fn example_config() -> Config {
    config(
        60 * SCALE,
        200 * SCALE,
        288 * SCALE,
        SCALE,
        8_000_000,
        1_000_000,
        MixedLayer {
            wtheta: fp(100_000_000),
            wq: fp(100_000),
            advtheta: fp(0),
            advq: fp(0),
            gammatheta: fp(6_000_000),
            gammaq: fp(2_000),
            beta: fp(200_000_000),
            div_u: fp(0),
        },
    )
}

#[test]
fn new_model_holds_initial_state_and_zero_clock() {
    let cfg = example_config();
    let model = CLASS::new(cfg);
    assert_eq!(model.h, fp(200 * SCALE));
    assert_eq!(model.theta, fp(288 * SCALE));
    assert_eq!(model.dtheta, fp(SCALE));
    assert_eq!(model.q, fp(8_000_000));
    assert_eq!(model.dq, fp(1_000_000));
    assert_eq!(model.t, fp(0));
}

#[test]
fn closures_match_documented_formulas_on_example() {
    let model = CLASS::new(example_config());
    // wthetav = wtheta + 0.61 * theta * wq = 0.1 + 0.61 * 288 * 0.0001
    assert_eq!(model.wthetav(), Some(fp(117_568_000)));
    // wthetave = -beta * wthetav = -0.2 * 0.117568
    assert_eq!(model.wthetave(), Some(fp(-23_513_600)));
    // dthetav = 289 * (1 + 0.61 * 0.009) - 288 * (1 + 0.61 * 0.008) = 1.18117
    assert_eq!(model.dthetav(), Some(fp(1_181_170_000)));
    // we = max(0, -wthetave / dthetav), computed here from those values
    let expected_we = fp(23_513_600).div(fp(1_181_170_000)).unwrap();
    assert_eq!(model.we(), Some(expected_we));
    // div_u = 0, so ws = 0 and htend = we
    assert_eq!(model.ws(), Some(fp(0)));
    assert_eq!(model.htend(), Some(expected_we));
}

#[test]
fn single_step_matches_documented_formulas() {
    let mut model = CLASS::new(example_config());
    let dt = fp(60 * SCALE);
    let we = model.we().unwrap();
    let ws = model.ws().unwrap();
    let expected_h = model.h.add(dt.mul(we.add(ws).unwrap()).unwrap()).unwrap();
    assert_eq!(model.update(), Ok(()));
    assert_eq!(model.h, expected_h);
    assert_eq!(model.t, fp(60 * SCALE));
    // The same value read as a decimal: we ~ 0.0235136 / 1.18117, so
    // h ~ 200 + 60 * 0.0199070 ~ 201.1944.
    let h_value = model.h.mantissa() as f64 / SCALE as f64;
    let expected = 200.0 + 60.0 * (0.0235136_f64 / 1.18117_f64);
    assert!((h_value - expected).abs() < 1e-6, "h after one step was {h_value}");
}

#[test]
fn time_advances_by_dt_each_step() {
    // A configuration whose tendencies are all exactly zero, but whose
    // dtheta jump keeps dthetav nonzero, so steps always succeed.
    let cfg = config(60 * SCALE, 200 * SCALE, 288 * SCALE, SCALE, 0, 0, zero_mixed_layer());
    let mut model = CLASS::new(cfg);
    for n in 1..=5_i128 {
        assert_eq!(model.update(), Ok(()));
        assert_eq!(model.t, fp(n * 60 * SCALE));
    }
    assert_eq!(model.h, fp(200 * SCALE));
    assert_eq!(model.theta, fp(288 * SCALE));
}

#[test]
fn entrainment_is_clamped_to_zero_when_ratio_is_negative() {
    // beta > 0 and wtheta > 0 make -wthetave positive; a negative jump
    // makes dthetav negative, so the raw ratio is negative.
    let ml = MixedLayer {
        wtheta: fp(100_000_000),
        beta: fp(200_000_000),
        ..zero_mixed_layer()
    };
    let model = CLASS::new(config(60 * SCALE, 200 * SCALE, 288 * SCALE, -SCALE, 0, 0, ml));
    assert!(model.dthetav().unwrap().mantissa() < 0);
    assert!(model.wthetave().unwrap().mantissa() < 0);
    assert_eq!(model.we(), Some(fp(0)));
}

#[test]
fn entrainment_is_never_negative_on_example() {
    let model = CLASS::new(example_config());
    assert!(model.we().unwrap().mantissa() >= 0);
}

#[test]
fn zero_jumps_make_the_step_degenerate_and_leave_h_constant() {
    // Zero fluxes and zero jumps: dthetav is exactly zero, the entrainment
    // ratio divides by zero, and the model reports it instead of stepping.
    let cfg = config(60 * SCALE, 200 * SCALE, 288 * SCALE, 0, 8_000_000, 0, zero_mixed_layer());
    let mut model = CLASS::new(cfg);
    assert_eq!(model.dthetav(), Some(fp(0)));
    assert_eq!(model.we(), None);
    for _ in 0..3 {
        assert_eq!(model.update(), Err(StepError::Degenerate));
        assert_eq!(model.h, fp(200 * SCALE));
        assert_eq!(model.theta, fp(288 * SCALE));
        assert_eq!(model.t, fp(0));
    }
}

#[test]
fn zero_depth_makes_the_step_degenerate() {
    // h = 0 leaves the heat and moisture budgets dividing by zero.
    let cfg = config(60 * SCALE, 0, 288 * SCALE, SCALE, 0, 0, zero_mixed_layer());
    let mut model = CLASS::new(cfg);
    assert_eq!(model.thetatend(), None);
    assert_eq!(model.update(), Err(StepError::Degenerate));
    assert_eq!(model.t, fp(0));
}

#[test]
fn out_of_range_arithmetic_makes_the_step_degenerate() {
    // A subsidence product far out of the mantissa range.
    let ml = MixedLayer { div_u: fp(SCALE), ..zero_mixed_layer() };
    let cfg = config(60 * SCALE, i128::MAX, 288 * SCALE, SCALE, 0, 0, ml);
    let mut model = CLASS::new(cfg);
    assert_eq!(model.ws(), None);
    assert_eq!(model.update(), Err(StepError::Degenerate));
    assert_eq!(model.h, fp(i128::MAX));
    assert_eq!(model.t, fp(0));
}
