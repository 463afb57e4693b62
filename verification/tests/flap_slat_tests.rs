use airsystems::flap_slat::FlapSlatAssembly;
use airsystems::flap_slat::FlapSlatHydraulicMotor;

// A flap drive with 0.32 cubic-inch motors, a
// 0.11 rad/s control arm at full pressure, a 251.97 degree synchro range
// and gear ratios of 140, 16.632 and 314.98.
fn flap_system() -> FlapSlatAssembly {
    FlapSlatAssembly::new(320, 6_302_536, 251_970_000, 140_000, 16_632, 314_980)
}

#[test]
fn flap_slat_assembly_init() {
    let flap_system = flap_system();

    assert!(flap_system.position_feedback() == 0);
    assert!(flap_system.left_motor().flow() == 0);
    assert!(flap_system.right_motor().flow() == 0);
    assert!(flap_system.left_motor().speed_mrpm == 0);
    assert!(flap_system.right_motor().speed_mrpm == 0);
}

#[test]
fn flap_slat_assembly_full_pressure() {
    let mut flap_system = flap_system();

    assert!(flap_system.position_feedback() == 0);
    assert!(flap_system.current_speed_udeg_s == 0);

    flap_system.update(150_000_000, 3_000_000, 3_000_000, 2000);

    // within 0.1 rad/s (5_729_578 micro-degrees per second) of full speed
    let diff = (flap_system.current_speed_udeg_s - flap_system.full_pressure_max_speed_udeg_s).abs();
    assert!(diff <= 5_729_578);

    // between 2000 and 6000 RPM
    assert!(flap_system.left_motor().speed_mrpm >= 2_000_000);
    assert!(flap_system.left_motor().speed_mrpm <= 6_000_000);
    assert!(flap_system.right_motor().speed_mrpm >= 2_000_000);
    assert!(flap_system.right_motor().speed_mrpm <= 6_000_000);

    // between 3 and 8 gallons per minute
    assert!(flap_system.left_motor().flow() >= 3_000_000);
    assert!(flap_system.left_motor().flow() <= 8_000_000);
    assert!(flap_system.right_motor().flow() >= 3_000_000);
    assert!(flap_system.right_motor().flow() <= 8_000_000);
}

#[test]
fn flap_slat_assembly_half_pressure_right() {
    let mut flap_system = flap_system();

    assert!(flap_system.position_feedback() == 0);

    flap_system.update(150_000_000, 0, 3_000_000, 2000);

    assert!(flap_system.left_motor().speed_mrpm == 0);
    assert!(flap_system.right_motor().speed_mrpm >= 2_000_000);
    assert!(flap_system.right_motor().speed_mrpm <= 6_000_000);

    assert!(flap_system.left_motor().flow() == 0);
    assert!(flap_system.right_motor().flow() >= 3_000_000);
    assert!(flap_system.right_motor().flow() <= 8_000_000);
}

#[test]
fn flap_slat_assembly_half_pressure_left() {
    let mut flap_system = flap_system();

    assert!(flap_system.position_feedback() == 0);

    flap_system.update(150_000_000, 3_000_000, 0, 2000);

    assert!(flap_system.right_motor().speed_mrpm == 0);
    assert!(flap_system.left_motor().speed_mrpm >= 2_000_000);
    assert!(flap_system.left_motor().speed_mrpm <= 6_000_000);

    assert!(flap_system.right_motor().flow() == 0);
    assert!(flap_system.left_motor().flow() >= 3_000_000);
    assert!(flap_system.left_motor().flow() <= 8_000_000);
}

#[test]
fn flap_slat_assembly_goes_to_req_position() {
    let mut flap_system = flap_system();

    assert!(flap_system.position_feedback() == 0);

    let synchro_gear_angle_request: i64 = 150_000_000;
    flap_system.update(synchro_gear_angle_request, 3_000_000, 3_000_000, 100);

    let mut last_position = flap_system.position_feedback();
    for _ in 0..200 {
        flap_system.update(synchro_gear_angle_request, 3_000_000, 3_000_000, 100);
        if flap_system.position_feedback() < synchro_gear_angle_request {
            assert!(flap_system.position_feedback() > last_position);
        }
        assert!(flap_system.position_feedback() <= flap_system.max_synchro_gear_position_udeg);
        last_position = flap_system.position_feedback();
    }

    assert!(flap_system.position_feedback() == synchro_gear_angle_request);
}

#[test]
fn flap_slat_assembly_stops_at_max_position_on_half_pressure_less_than_37_seconds() {
    let mut flap_system = flap_system();

    assert!(flap_system.position_feedback() == 0);

    for _ in 0..370 {
        flap_system.update(800_000_000, 3_000_000, 0, 100);
        assert!(flap_system.position_feedback() <= flap_system.max_synchro_gear_position_udeg);
    }

    assert!(flap_system.position_feedback() == flap_system.max_synchro_gear_position_udeg);
}

#[test]
fn flap_slat_assembly_goes_back_from_max_position() {
    let mut flap_system = flap_system();

    for _ in 0..300 {
        flap_system.update(800_000_000, 3_000_000, 3_000_000, 100);
        assert!(flap_system.position_feedback() <= flap_system.max_synchro_gear_position_udeg);
    }
    assert!(flap_system.position_feedback() == flap_system.max_synchro_gear_position_udeg);

    for _ in 0..300 {
        flap_system.update(-100_000_000, 3_000_000, 3_000_000, 100);
        assert!(flap_system.position_feedback() <= flap_system.max_synchro_gear_position_udeg);
    }
    assert!(flap_system.position_feedback() == 0);
}

// With combined pressure below the 800 psi brake-release minimum the
// position must not move, however many ticks pass.
#[test]
fn flap_slat_assembly_holds_position_below_pressure_threshold() {
    let mut flap_system = flap_system();

    for _ in 0..100 {
        flap_system.update(150_000_000, 3_000_000, 3_000_000, 100);
    }
    let held = flap_system.position_feedback();
    assert!(held > 0);

    for _ in 0..500 {
        flap_system.update(251_970_000, 400_000, 399_000, 100);
        assert!(flap_system.position_feedback() == held);
    }
    for _ in 0..500 {
        flap_system.update(0, 0, 0, 1000);
        assert!(flap_system.position_feedback() == held);
    }
}

// Spool-up asymptote: a step request held for five time constants brings
// the motor within one percent of the requested speed.
#[test]
fn flap_slat_motor_reaches_requested_speed_within_one_percent() {
    let mut motor = FlapSlatHydraulicMotor::new(320);
    motor.update_speed(5_000_000, 2500);
    assert!(motor.speed_mrpm == 4_966_311);
    assert!((5_000_000 - motor.speed_mrpm).abs() <= 50_000);

    let mut motor2 = FlapSlatHydraulicMotor::new(320);
    for _ in 0..200 {
        motor2.update_speed(5_000_000, 16);
    }
    assert!((5_000_000 - motor2.speed_mrpm).abs() <= 50_000);
    assert!(motor2.speed_mrpm <= 5_000_000);
}

// Speeds below 20 RPM snap to exactly zero.
#[test]
fn flap_slat_motor_snaps_small_speeds_to_zero() {
    let mut motor = FlapSlatHydraulicMotor::new(320);
    motor.update_speed(19_000, 3_600_000);
    assert!(motor.speed_mrpm == 0);

    let mut motor2 = FlapSlatHydraulicMotor::new(320);
    motor2.update_speed(-3_000_000, 3_600_000);
    assert!(motor2.speed_mrpm == 0);
}

#[test]
fn flap_slat_motor_torque_and_flow_formulas() {
    let motor = FlapSlatHydraulicMotor::new(320);
    // 0.113 * 3000 psi * 0.32 cubic inches / 6.28, in milli-newton-metres
    assert!(motor.torque_mnm(3_000_000) == 17_273);
    assert!(motor.torque_mnm(0) == 0);

    let mut spinning = FlapSlatHydraulicMotor::new(320);
    spinning.update_speed(5_000_000, 2500);
    // flow = rpm * displacement / 231
    assert!(spinning.flow() == spinning.speed_mrpm * 320 / 231);
    assert!(spinning.used_volume() > 0);
    assert!(spinning.used_volume() == spinning.reservoir_return());
}

#[test]
fn flap_slat_motor_accumulators_reset() {
    let mut flap_system = flap_system();
    for _ in 0..50 {
        flap_system.update(150_000_000, 3_000_000, 3_000_000, 100);
    }
    assert!(flap_system.left_motor().used_volume() > 0);
    assert!(flap_system.right_motor().reservoir_return() > 0);

    flap_system.reset_left_accumulators();
    assert!(flap_system.left_motor().used_volume() == 0);
    assert!(flap_system.left_motor().reservoir_return() == 0);
    assert!(flap_system.right_motor().used_volume() > 0);

    flap_system.reset_right_accumulators();
    assert!(flap_system.right_motor().used_volume() == 0);
    assert!(flap_system.right_motor().reservoir_return() == 0);
}
