use airsystems::container::PneumaticPipe;
use airsystems::decay::decay_pow;
use airsystems::decay::FRAC_ONE;
use airsystems::pid::PidController;
use airsystems::valve::DefaultValve;
use airsystems::valve::StaticExhaust;
use airsystems::valve::TRANSFER_DECAY_PER_MS;

#[test]
fn decay_pow_exact_values() {
    assert_eq!(decay_pow(TRANSFER_DECAY_PER_MS, 0), FRAC_ONE);
    assert_eq!(decay_pow(TRANSFER_DECAY_PER_MS, 1), TRANSFER_DECAY_PER_MS);
    // floor((r/2^32)^16 * 2^32) for r = floor(2^32 * e^-0.001)
    assert_eq!(decay_pow(TRANSFER_DECAY_PER_MS, 16), 4_226_794_640);
    // longer runs decay further
    assert!(decay_pow(TRANSFER_DECAY_PER_MS, 1000) < decay_pow(TRANSFER_DECAY_PER_MS, 100));
}

#[test]
fn container_volume_change_moves_pressure() {
    let mut pipe = PneumaticPipe::new(1_000_000, 14_700, 15_000);
    assert_eq!(pipe.pressure(), 14_700);
    assert_eq!(pipe.volume(), 1_000_000);
    assert_eq!(pipe.temperature(), 15_000);

    // stiffness 20595 milli-psi: 48555 ml into one cubic metre raises the
    // pressure by floor(20595 * 48555 / 1000000) = 999 milli-psi
    pipe.change_volume(48_555);
    assert_eq!(pipe.pressure(), 15_699);

    pipe.change_volume(-48_555);
    assert_eq!(pipe.pressure(), 14_700);

    // clamped at the zero floor
    pipe.update_pressure_only(-1_000_000_000);
    assert_eq!(pipe.pressure(), 0);
}

#[test]
fn container_temperature_clamps() {
    let mut pipe = PneumaticPipe::new(1_000, 14_700, 15_000);
    pipe.update_temperature(-1_000_000);
    assert_eq!(pipe.temperature(), -273_150);
    pipe.update_temperature(2_000_000);
    assert_eq!(pipe.temperature(), 1_000_000);
}

// Exhaust equilibrium: venting a pressurized container to ambient drives
// its pressure to ambient, within far less than 0.01 psi.
#[test]
fn exhaust_drives_container_to_ambient() {
    let exhaust = StaticExhaust::new(100);
    let mut pipe = PneumaticPipe::new(1_000_000, 20_000, 15_000);
    let ambient: i64 = 14_700;

    let mut last_gap: i64 = pipe.pressure() - ambient;
    for _ in 0..6000 {
        exhaust.update_move_fluid(16, ambient, &mut pipe);
        let gap = pipe.pressure() - ambient;
        assert!(0 <= gap && gap <= last_gap);
        if last_gap > 0 {
            assert!(gap < last_gap);
        }
        last_gap = gap;
    }
    assert!((pipe.pressure() - ambient).abs() < 10);
    assert_eq!(pipe.pressure(), ambient);

    // and from below ambient it fills back up to ambient
    let mut low = PneumaticPipe::new(1_000_000, 10_000, 15_000);
    for _ in 0..6000 {
        exhaust.update_move_fluid(16, ambient, &mut low);
    }
    assert_eq!(low.pressure(), ambient);
}

#[test]
fn exhaust_zero_tick_moves_nothing() {
    let exhaust = StaticExhaust::new(1000);
    let mut pipe = PneumaticPipe::new(1_000_000, 20_000, 15_000);
    exhaust.update_move_fluid(0, 14_700, &mut pipe);
    assert_eq!(pipe.pressure(), 20_000);

    let closed = StaticExhaust::new(0);
    closed.update_move_fluid(1000, 14_700, &mut pipe);
    assert_eq!(pipe.pressure(), 20_000);
}

#[test]
fn valve_moves_fluid_and_temperature_toward_consumer() {
    let valve = DefaultValve::new_open();
    let mut supply = PneumaticPipe::new(1_000_000, 50_000, 200_000);
    let mut consumer = PneumaticPipe::new(1_000_000, 14_700, 15_000);

    for _ in 0..2000 {
        valve.update_move_fluid_with_temperature(16, &mut supply, &mut consumer);
    }
    // pressures equalise and the consumer warms toward the supply side
    assert!((supply.pressure() - consumer.pressure()).abs() <= 100);
    assert!(consumer.pressure() > 14_700);
    assert!(supply.pressure() < 50_000);
    assert!(consumer.temperature() > 15_000);

    // a closed valve moves nothing
    let closed = DefaultValve::new_closed();
    let before_supply = supply.pressure();
    let before_consumer = consumer.pressure();
    closed.update_move_fluid_with_temperature(1000, &mut supply, &mut consumer);
    assert_eq!(supply.pressure(), before_supply);
    assert_eq!(consumer.pressure(), before_consumer);
}

#[test]
fn valve_open_amount_follows_signal() {
    let mut valve = DefaultValve::new_closed();
    assert!(!valve.is_open());
    assert_eq!(valve.open_amount(), 0);

    valve.update_open_amount(350);
    assert!(valve.is_open());
    assert_eq!(valve.open_amount(), 350);

    valve.update_open_amount(0);
    assert!(!valve.is_open());
}

#[test]
fn pid_proportional_and_derivative_terms() {
    // the wing anti-ice regulator gains: kp = kd = 0.5, all limits 1.0,
    // setpoint 22 psi
    let mut pid = PidController::new(500, 0, 500, 1000, 1000, 1000, 1000, 22_000);

    // 2 psi of error: the proportional term saturates at the output limit
    let out1 = pid.next_control_output(20_000);
    assert_eq!(out1, 1000);

    // measurement rising by 1 psi: p = 0.5, d = -0.5, output 0
    let out2 = pid.next_control_output(21_000);
    assert_eq!(out2, 0);

    // still one psi below the setpoint, measurement unchanged: p = 0.5,
    // d = 0
    let out3 = pid.next_control_output(21_000);
    assert_eq!(out3, 500);
    // at the setpoint but with the measurement one psi up: p = 0,
    // d = -0.5
    let out4 = pid.next_control_output(22_000);
    assert_eq!(out4, -500);
}
