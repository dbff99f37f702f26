use class_rust::bmi::{BmiClass, BmiError};
use class_rust::fixed::{Fp, SCALE};
use class_rust::model::{Config, InitialState, MixedLayer, TimeControl};
use class_rust::utils::{str_eq, GenericOption};

fn fp(m: i128) -> Fp {
    Fp::from_mantissa(m)
}

fn config_with_initial(h_0: i128, theta_0: i128) -> Config {
    Config {
        time_control: TimeControl { runtime: fp(3600 * SCALE), dt: fp(60 * SCALE) },
        initial_state: InitialState {
            h_0: fp(h_0),
            theta_0: fp(theta_0),
            dtheta_0: fp(SCALE),
            q_0: fp(8_000_000),
            dq_0: fp(1_000_000),
        },
        mixed_layer: MixedLayer {
            wtheta: fp(100_000_000),
            wq: fp(100_000),
            advtheta: fp(0),
            advq: fp(0),
            gammatheta: fp(6_000_000),
            gammaq: fp(2_000),
            beta: fp(200_000_000),
            div_u: fp(0),
        },
    }
}

#[test]
fn uninitialized_update_fails() {
    let mut bmi = BmiClass::new();
    assert_eq!(bmi.update(), Err(BmiError::NotInitialized));
}

#[test]
fn uninitialized_get_value_fails() {
    let bmi = BmiClass::new();
    assert_eq!(bmi.get_value("h"), Err(BmiError::NotInitialized));
    assert_eq!(bmi.get_current_time(), Err(BmiError::NotInitialized));
    assert_eq!(bmi.get_end_time(), Err(BmiError::NotInitialized));
    assert_eq!(bmi.get_time_step(), Err(BmiError::NotInitialized));
}

#[test]
fn unknown_variable_fails() {
    let mut bmi = BmiClass::new();
    bmi.initialize(config_with_initial(200 * SCALE, 288 * SCALE));
    assert_eq!(bmi.get_value("not_a_field"), Err(BmiError::UnknownVariable));
    assert_eq!(bmi.get_value("H"), Err(BmiError::UnknownVariable));
    assert_eq!(bmi.get_value(""), Err(BmiError::UnknownVariable));
}

#[test]
fn get_value_reads_every_state_variable() {
    let mut bmi = BmiClass::new();
    bmi.initialize(config_with_initial(200 * SCALE, 288 * SCALE));
    assert_eq!(bmi.get_value("t"), Ok(fp(0)));
    assert_eq!(bmi.get_value("h"), Ok(fp(200 * SCALE)));
    assert_eq!(bmi.get_value("theta"), Ok(fp(288 * SCALE)));
    assert_eq!(bmi.get_value("dtheta"), Ok(fp(SCALE)));
    assert_eq!(bmi.get_value("q"), Ok(fp(8_000_000)));
    assert_eq!(bmi.get_value("dq"), Ok(fp(1_000_000)));
}

#[test]
fn component_name_is_fixed() {
    let bmi = BmiClass::new();
    assert_eq!(
        bmi.get_component_name(),
        "Chemistry Land-surface Atmosphere Soil Slab model"
    );
}

#[test]
fn time_accessors_read_the_configuration() {
    let mut bmi = BmiClass::new();
    bmi.initialize(config_with_initial(200 * SCALE, 288 * SCALE));
    assert_eq!(bmi.get_current_time(), Ok(fp(0)));
    assert_eq!(bmi.get_end_time(), Ok(fp(3600 * SCALE)));
    assert_eq!(bmi.get_time_step(), Ok(fp(60 * SCALE)));
}

#[test]
fn update_advances_the_clock() {
    let mut bmi = BmiClass::new();
    bmi.initialize(config_with_initial(200 * SCALE, 288 * SCALE));
    assert_eq!(bmi.update(), Ok(()));
    assert_eq!(bmi.get_current_time(), Ok(fp(60 * SCALE)));
    assert_eq!(bmi.update(), Ok(()));
    assert_eq!(bmi.get_current_time(), Ok(fp(120 * SCALE)));
}

#[test]
fn reinitialize_resets_state() {
    let mut bmi = BmiClass::new();
    bmi.initialize(config_with_initial(200 * SCALE, 288 * SCALE));
    assert_eq!(bmi.update(), Ok(()));
    assert_ne!(bmi.get_value("t"), Ok(fp(0)));
    // A second initialize discards the old model and config entirely.
    bmi.initialize(config_with_initial(500 * SCALE, 300 * SCALE));
    assert_eq!(bmi.get_value("t"), Ok(fp(0)));
    assert_eq!(bmi.get_value("h"), Ok(fp(500 * SCALE)));
    assert_eq!(bmi.get_value("theta"), Ok(fp(300 * SCALE)));
    assert_eq!(bmi.get_current_time(), Ok(fp(0)));
}

#[test]
fn generic_option_is_empty_until_set() {
    let mut holder: GenericOption<i32> = GenericOption::new(String::from("value not set"));
    assert!(!holder.has_value());
    holder.set(5);
    assert!(holder.has_value());
    assert_eq!(*holder.value_or_panic(), 5);
    holder.set(7);
    assert_eq!(*holder.value_or_panic(), 7);
}

#[test]
fn generic_option_mutable_access_writes_through() {
    let mut holder: GenericOption<i32> = GenericOption::new(String::from("value not set"));
    holder.set(5);
    *holder.value_or_panic_mut() = 9;
    assert_eq!(*holder.value_or_panic(), 9);
}

#[test]
fn str_eq_is_exact_and_case_sensitive() {
    assert!(str_eq("theta", "theta"));
    assert!(!str_eq("theta", "Theta"));
    assert!(!str_eq("theta", "thet"));
    assert!(!str_eq("", "t"));
    assert!(str_eq("", ""));
}
