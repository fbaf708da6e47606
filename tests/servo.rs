use rp2040_servo::{derive_period, HardwareError, PwmConfig, Servo, ServoBuilder, ServoError, PWM_DIVIDER};

const CLOCK_HZ: u32 = 125_000_000;

fn accept_config(_cfg: PwmConfig) -> Result<(), HardwareError> {
    Ok(())
}

fn accept_duty(_duty: u16) -> Result<(), HardwareError> {
    Ok(())
}

fn reject_duty(_duty: u16) -> Result<(), HardwareError> {
    Err(HardwareError)
}

fn standard_servo() -> Servo {
    ServoBuilder::new()
        .set_servo_freq(50)
        .set_min_duty(2100)
        .set_max_duty(8200)
        .set_max_degree_rotation(180)
        .build(CLOCK_HZ, accept_config)
        .unwrap()
}

#[test]
fn period_derivation_default_divider() {
    assert_eq!(PWM_DIVIDER, 40);
    assert_eq!(derive_period(125_000_000, 50, 40), Ok(62499));
}

#[test]
fn period_derivation_too_large() {
    assert_eq!(derive_period(125_000_000, 50, 1), Err(ServoError::Configuration));
}

#[test]
fn period_derivation_underflow() {
    assert_eq!(derive_period(1000, 50, 40), Err(ServoError::Configuration));
}

#[test]
fn period_derivation_zero_frequency() {
    assert_eq!(derive_period(125_000_000, 0, 40), Err(ServoError::Configuration));
}

#[test]
fn period_derivation_exact_top() {
    // 65536 ticks per period: the largest top that fits
    assert_eq!(derive_period(65536 * 40, 1, 40), Ok(65535));
    assert_eq!(derive_period(65537 * 40, 1, 40), Err(ServoError::Configuration));
}

#[test]
fn builder_defaults() {
    let b = ServoBuilder::new();
    assert_eq!(b.freq, 50);
    assert_eq!(b.min_duty, 2100);
    assert_eq!(b.max_duty, 8200);
    assert_eq!(b.max_degree_rotation, 180);
    assert_eq!(b.initial_position, 0);
}

#[test]
fn builder_last_write_wins() {
    let b = ServoBuilder::new().set_servo_freq(60).set_servo_freq(100).set_initial_position(5).set_initial_position(7);
    assert_eq!(b.freq, 100);
    assert_eq!(b.initial_position, 7);
}

#[test]
fn build_applies_derived_config() {
    let mut applied = Vec::new();
    let servo = ServoBuilder::new()
        .build(CLOCK_HZ, |cfg| {
            applied.push(cfg);
            Ok(())
        })
        .unwrap();
    let expected = PwmConfig { top: 62499, divider: 40, enable: false };
    assert_eq!(applied, vec![expected]);
    assert_eq!(servo.config(), expected);
    assert!(!servo.is_enabled());
    assert_eq!(servo.get_current_pos(), 0);
}

#[test]
fn build_rejects_zero_frequency() {
    let r = ServoBuilder::new().set_servo_freq(0).build(CLOCK_HZ, accept_config);
    assert!(matches!(r, Err(ServoError::Configuration)));
}

#[test]
fn build_rejects_zero_rotation() {
    let r = ServoBuilder::new().set_max_degree_rotation(0).build(CLOCK_HZ, accept_config);
    assert!(matches!(r, Err(ServoError::Configuration)));
}

#[test]
fn build_rejects_equal_duties() {
    let r = ServoBuilder::new().set_min_duty(5000).set_max_duty(5000).build(CLOCK_HZ, accept_config);
    assert!(matches!(r, Err(ServoError::Configuration)));
}

fn wide_servo() -> Servo {
    ServoBuilder::new().set_min_duty(0).set_max_duty(70000).build(CLOCK_HZ, accept_config).unwrap()
}

#[test]
fn build_accepts_duty_beyond_register() {
    let servo = wide_servo();
    assert_eq!(servo.get_max_duty(), 70000);
    assert_eq!(servo.degree_to_duty(180), 70000);
}

#[test]
fn build_wide_duty_propagates_hardware_error() {
    let r = ServoBuilder::new().set_min_duty(0).set_max_duty(70000).build(CLOCK_HZ, |_cfg| Err(HardwareError));
    assert!(matches!(r, Err(ServoError::Hardware)));
}

#[test]
fn rotate_duty_beyond_register_is_hardware_error() {
    let mut servo = wide_servo();
    servo.rotate(90, accept_duty).unwrap();
    let mut calls = 0u32;
    let r = servo.rotate(180, |_d| {
        calls += 1;
        Ok(())
    });
    assert_eq!(r, Err(HardwareError));
    assert_eq!(calls, 0);
    assert_eq!(servo.get_current_pos(), 90);
    let r = servo.rotate_duty(69000, |_d| {
        calls += 1;
        Ok(())
    });
    assert_eq!(r, Err(HardwareError));
    assert_eq!(calls, 0);
    assert_eq!(servo.get_current_pos(), 90);
}

#[test]
fn enable_duty_beyond_register_is_hardware_error() {
    let mut servo = ServoBuilder::new()
        .set_min_duty(0)
        .set_max_duty(70000)
        .set_initial_position(180)
        .build(CLOCK_HZ, accept_config)
        .unwrap();
    let mut calls = 0u32;
    let r = servo.enable(accept_config, |_d| {
        calls += 1;
        Ok(())
    });
    assert_eq!(r, Err(HardwareError));
    assert_eq!(calls, 0);
    assert!(servo.is_enabled());
    assert_eq!(servo.get_current_pos(), 180);
}

#[test]
fn build_rejects_period_out_of_range() {
    // one hertz needs more than 16 bits of period at this divider
    let r = ServoBuilder::new().set_servo_freq(1).build(CLOCK_HZ, accept_config);
    assert!(matches!(r, Err(ServoError::Configuration)));
}

#[test]
fn build_does_not_apply_invalid_config() {
    let mut calls = 0u32;
    let r = ServoBuilder::new().set_servo_freq(0).build(CLOCK_HZ, |_cfg| {
        calls += 1;
        Ok(())
    });
    assert!(matches!(r, Err(ServoError::Configuration)));
    assert_eq!(calls, 0);
}

#[test]
fn build_propagates_hardware_error() {
    let r = ServoBuilder::new().build(CLOCK_HZ, |_cfg| Err(HardwareError));
    assert!(matches!(r, Err(ServoError::Hardware)));
}

#[test]
fn build_clamps_initial_position() {
    let servo = ServoBuilder::new().set_initial_position(250).build(CLOCK_HZ, accept_config).unwrap();
    assert_eq!(servo.get_current_pos(), 180);
}

#[test]
fn concrete_scenario_degree_to_duty() {
    let servo = standard_servo();
    assert_eq!(servo.degree_to_duty(0), 2100);
    assert_eq!(servo.degree_to_duty(180), 8200);
    assert_eq!(servo.degree_to_duty(90), 5150);
}

#[test]
fn degree_to_duty_truncates() {
    let servo = standard_servo();
    // 6100 * 1 / 180 = 33.9
    assert_eq!(servo.degree_to_duty(1), 2133);
}

#[test]
fn degree_to_duty_clamps_beyond_span() {
    let servo = standard_servo();
    assert_eq!(servo.degree_to_duty(181), 8200);
    assert_eq!(servo.degree_to_duty(360), 8200);
    assert_eq!(servo.degree_to_duty(u32::MAX), 8200);
}

#[test]
fn degree_to_duty_monotone() {
    let servo = standard_servo();
    let mut previous = servo.degree_to_duty(0);
    for degree in 1..=180u32 {
        let duty = servo.degree_to_duty(degree);
        assert!(duty >= previous);
        previous = duty;
    }
}

#[test]
fn round_trip_within_one_degree() {
    let servo = standard_servo();
    for degree in 0..=180u32 {
        let back = servo.duty_to_degree(servo.degree_to_duty(degree));
        assert!(back <= degree && back + 1 >= degree, "degree {} came back as {}", degree, back);
    }
}

#[test]
fn duty_to_degree_values() {
    let servo = standard_servo();
    assert_eq!(servo.duty_to_degree(2100), 0);
    assert_eq!(servo.duty_to_degree(5150), 90);
    assert_eq!(servo.duty_to_degree(8200), 180);
}

#[test]
fn getters() {
    let servo = standard_servo();
    assert_eq!(servo.get_min_duty(), 2100);
    assert_eq!(servo.get_max_duty(), 8200);
    assert_eq!(servo.get_current_duty(), 2100);
}

#[test]
fn rotate_writes_duty_and_stores_position() {
    let mut servo = standard_servo();
    let mut written = Vec::new();
    let r = servo.rotate(90, |d| {
        written.push(d);
        Ok(())
    });
    assert_eq!(r, Ok(()));
    assert_eq!(written, vec![5150u16]);
    assert_eq!(servo.get_current_pos(), 90);
    assert_eq!(servo.get_current_duty(), 5150);
}

#[test]
fn rotate_clamps_stored_position() {
    let mut servo = standard_servo();
    let mut written = Vec::new();
    servo
        .rotate(200, |d| {
            written.push(d);
            Ok(())
        })
        .unwrap();
    assert_eq!(written, vec![8200u16]);
    assert_eq!(servo.get_current_pos(), 180);
}

#[test]
fn rotate_failure_keeps_position() {
    let mut servo = standard_servo();
    servo.rotate(45, accept_duty).unwrap();
    assert_eq!(servo.rotate(120, reject_duty), Err(HardwareError));
    assert_eq!(servo.get_current_pos(), 45);
}

#[test]
fn rotate_duty_clamps_and_converts() {
    let mut servo = standard_servo();
    let mut written = Vec::new();
    servo
        .rotate_duty(9000, |d| {
            written.push(d);
            Ok(())
        })
        .unwrap();
    assert_eq!(servo.get_current_pos(), 180);
    servo
        .rotate_duty(100, |d| {
            written.push(d);
            Ok(())
        })
        .unwrap();
    assert_eq!(servo.get_current_pos(), 0);
    servo
        .rotate_duty(5150, |d| {
            written.push(d);
            Ok(())
        })
        .unwrap();
    assert_eq!(servo.get_current_pos(), 90);
    assert_eq!(written, vec![8200u16, 2100, 5150]);
}

#[test]
fn rotate_duty_failure_keeps_position() {
    let mut servo = standard_servo();
    servo.rotate(30, accept_duty).unwrap();
    assert_eq!(servo.rotate_duty(8000, reject_duty), Err(HardwareError));
    assert_eq!(servo.get_current_pos(), 30);
}

#[test]
fn enable_pushes_config_then_reasserts_position() {
    let mut servo = ServoBuilder::new().set_initial_position(90).build(CLOCK_HZ, accept_config).unwrap();
    let mut pushed = Vec::new();
    let mut written = Vec::new();
    let r = servo.enable(
        |cfg| {
            pushed.push(cfg);
            Ok(())
        },
        |d| {
            written.push(d);
            Ok(())
        },
    );
    assert_eq!(r, Ok(()));
    assert_eq!(pushed, vec![PwmConfig { top: 62499, divider: 40, enable: true }]);
    assert_eq!(written, vec![5150u16]);
    assert!(servo.is_enabled());
    assert_eq!(servo.get_current_pos(), 90);
}

#[test]
fn enable_failure_leaves_output_off() {
    let mut servo = standard_servo();
    let mut written = 0u32;
    let r = servo.enable(
        |_cfg| Err(HardwareError),
        |_d| {
            written += 1;
            Ok(())
        },
    );
    assert_eq!(r, Err(HardwareError));
    assert!(!servo.is_enabled());
    assert_eq!(written, 0);
}

#[test]
fn disable_keeps_position() {
    let mut servo = standard_servo();
    servo.enable(accept_config, accept_duty).unwrap();
    servo.rotate(120, accept_duty).unwrap();
    let mut pushed = Vec::new();
    servo
        .disable(|cfg| {
            pushed.push(cfg);
            Ok(())
        })
        .unwrap();
    assert_eq!(pushed, vec![PwmConfig { top: 62499, divider: 40, enable: false }]);
    assert!(!servo.is_enabled());
    assert_eq!(servo.get_current_pos(), 120);
}

#[test]
fn disable_failure_keeps_output_on() {
    let mut servo = standard_servo();
    servo.enable(accept_config, accept_duty).unwrap();
    assert_eq!(servo.disable(|_cfg| Err(HardwareError)), Err(HardwareError));
    assert!(servo.is_enabled());
}

fn run_sweep(servo: &mut Servo, target: u32) -> Vec<u32> {
    let mut positions = Vec::new();
    while let Some(next) = servo.sweep_step(target) {
        servo.rotate(next, accept_duty).unwrap();
        positions.push(servo.get_current_pos());
    }
    positions
}

#[test]
fn sweep_converges_upward() {
    let mut servo = standard_servo();
    let positions = run_sweep(&mut servo, 180);
    assert_eq!(positions, (1..=180u32).collect::<Vec<u32>>());
    assert_eq!(servo.get_current_pos(), 180);
}

#[test]
fn sweep_converges_downward() {
    let mut servo = standard_servo();
    servo.rotate(5, accept_duty).unwrap();
    assert_eq!(run_sweep(&mut servo, 2), vec![4, 3, 2]);
}

#[test]
fn sweep_target_beyond_span_stops_at_end() {
    let mut servo = standard_servo();
    servo.rotate(178, accept_duty).unwrap();
    assert_eq!(run_sweep(&mut servo, 200), vec![179, 180]);
    assert_eq!(servo.sweep_step(200), None);
}

#[test]
fn sweep_at_target_does_nothing() {
    let servo = standard_servo();
    assert_eq!(servo.sweep_step(0), None);
}
