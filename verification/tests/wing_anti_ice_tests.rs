use airsystems::container::PneumaticPipe;
use airsystems::wing_anti_ice::WingAntiIceComplex;
use airsystems::wing_anti_ice::WingAntiIcePushButtonMode;

// Ambient conditions near sea level used by these tests, in milli-psi and
// milli-degrees Celsius.
const AMBIENT_MPSI: i64 = 14_433;
const AMBIENT_TEMP_MC: i64 = 14_000;

// One tick against supply containers held at the given pressure, as an
// engine-fed precooler would hold them.
fn tick(complex: &mut WingAntiIceComplex, dt_ms: u64, mode: WingAntiIcePushButtonMode, supply_mpsi: i64) {
    let mut left_supply = PneumaticPipe::new(1_000_000, supply_mpsi, 200_000);
    let mut right_supply = PneumaticPipe::new(1_000_000, supply_mpsi, 200_000);
    complex.update(dt_ms, AMBIENT_MPSI, AMBIENT_TEMP_MC, mode, &mut left_supply, &mut right_supply);
}

#[test]
fn wing_anti_ice_cold_and_dark() {
    let mut complex = WingAntiIceComplex::new();
    complex.set_on_ground(true);

    for _ in 0..7000 {
        tick(&mut complex, 16, WingAntiIcePushButtonMode::Off, AMBIENT_MPSI);
    }

    // pressures and temperatures settle to ambient within 0.01 psi and
    // 0.05 degrees Celsius
    assert!((complex.wai_consumer_pressure(0) - AMBIENT_MPSI).abs() < 10);
    assert!((complex.wai_consumer_pressure(1) - AMBIENT_MPSI).abs() < 10);
    assert!((complex.wai_consumer_temperature(0) - AMBIENT_TEMP_MC).abs() < 50);
    assert!((complex.wai_consumer_temperature(1) - AMBIENT_TEMP_MC).abs() < 50);
    assert!(!complex.is_wai_valve_open(0));
    assert!(!complex.is_wai_valve_open(1));
    assert!(!complex.wai_system_on);
    assert!(!complex.wai_system_has_fault);
}

#[test]
fn wing_anti_ice_has_fault_when_precooler_not_pressurized() {
    let mut complex = WingAntiIceComplex::new();
    complex.set_on_ground(true);

    for _ in 0..1000 {
        tick(&mut complex, 16, WingAntiIcePushButtonMode::Off, AMBIENT_MPSI);
    }
    for _ in 0..1000 {
        tick(&mut complex, 16, WingAntiIcePushButtonMode::On, AMBIENT_MPSI);
    }
    assert!(complex.wai_system_has_fault);
}

#[test]
fn wing_anti_ice_no_fault_after_starting_engine() {
    let mut complex = WingAntiIceComplex::new();
    complex.set_on_ground(true);

    for _ in 0..1000 {
        tick(&mut complex, 16, WingAntiIcePushButtonMode::On, AMBIENT_MPSI);
    }
    assert!(complex.wai_system_has_fault);

    // idle engines pressurize the precooler; the ground test is running,
    // so the valves open and the fault clears
    for _ in 0..1000 {
        tick(&mut complex, 16, WingAntiIcePushButtonMode::On, 50_000);
    }
    assert!(!complex.wai_system_has_fault);
    assert!(complex.wai_system_on);
}

#[test]
fn wing_anti_ice_timer_doesnt_start_if_precooler_not_pressurized() {
    let mut complex = WingAntiIceComplex::new();
    complex.set_on_ground(true);

    for _ in 0..2000 {
        tick(&mut complex, 16, WingAntiIcePushButtonMode::On, AMBIENT_MPSI);
    }
    assert!(complex.wai_system_has_fault);
    assert!(complex.left.controller.get_timer() == 0);
    assert!(complex.right.controller.get_timer() == 0);
}

#[test]
fn wing_anti_ice_tweak_pid() {
    let mut complex = WingAntiIceComplex::new();
    complex.set_on_ground(false);

    for _ in 0..2000 {
        tick(&mut complex, 16, WingAntiIcePushButtonMode::On, 50_000);
        assert!(complex.left.valve.open_amount <= 1000);
        assert!(complex.right.valve.open_amount <= 1000);
    }
}

#[test]
fn wing_anti_ice_pressure_regulated() {
    let mut complex = WingAntiIceComplex::new();
    complex.set_on_ground(false);

    for _ in 0..10_000 {
        tick(&mut complex, 16, WingAntiIcePushButtonMode::On, 50_000);
    }

    // regulated to the 22 psi setpoint within 0.1 psi
    assert!((complex.wai_consumer_pressure(0) - 22_000).abs() < 100);
    assert!((complex.wai_consumer_pressure(1) - 22_000).abs() < 100);
}

#[test]
fn wing_anti_ice_valve_close_after_30_seconds_on_ground() {
    let mut complex = WingAntiIceComplex::new();
    for _ in 0..1000 {
        tick(&mut complex, 16, WingAntiIcePushButtonMode::Off, 50_000);
    }
    complex.set_on_ground(true);

    assert!(complex.left.controller.get_timer() == 0);
    assert!(complex.right.controller.get_timer() == 0);

    tick(&mut complex, 16, WingAntiIcePushButtonMode::On, 50_000);
    assert!(complex.wai_system_on);

    tick(&mut complex, 1000, WingAntiIcePushButtonMode::On, 50_000);
    assert!(complex.left.valve.open_amount > 0);
    assert!(complex.left.controller.get_timer() < 2000);
    assert!(complex.right.valve.open_amount > 0);
    assert!(complex.right.controller.get_timer() < 2000);

    tick(&mut complex, 30_000, WingAntiIcePushButtonMode::On, 50_000);
    assert!(complex.left.controller.get_timer() == 30_000);
    assert!(complex.left.valve.open_amount == 0);
    assert!(complex.right.controller.get_timer() == 30_000);
    assert!(complex.right.valve.open_amount == 0);
    assert!(!complex.wai_system_on);
}

#[test]
fn wing_anti_ice_valve_open_after_leaving_ground_after_test() {
    let mut complex = WingAntiIceComplex::new();
    complex.set_on_ground(true);
    tick(&mut complex, 31_000, WingAntiIcePushButtonMode::On, 50_000);
    tick(&mut complex, 16, WingAntiIcePushButtonMode::On, 50_000);

    assert!(!complex.wai_system_on);
    assert!(complex.left.valve.open_amount == 0);
    assert!(complex.right.valve.open_amount == 0);

    complex.set_on_ground(false);
    tick(&mut complex, 1000, WingAntiIcePushButtonMode::On, 50_000);

    assert!(complex.wai_system_on);
    assert!(complex.left.valve.open_amount > 0);
    assert!(complex.right.valve.open_amount > 0);
    assert!(complex.left.controller.get_timer() == 0);
    assert!(complex.right.controller.get_timer() == 0);
}

#[test]
fn wing_anti_ice_valve_controller_timer_starts_after_landing() {
    let mut complex = WingAntiIceComplex::new();
    complex.set_on_ground(false);
    for _ in 0..1000 {
        tick(&mut complex, 16, WingAntiIcePushButtonMode::On, 50_000);
    }

    complex.set_on_ground(true);
    tick(&mut complex, 30_000, WingAntiIcePushButtonMode::On, 50_000);
    tick(&mut complex, 16, WingAntiIcePushButtonMode::On, 50_000);
    assert!(!complex.is_wai_valve_open(0));
    assert!(!complex.is_wai_valve_open(1));

    complex.set_on_ground(false);
    tick(&mut complex, 16, WingAntiIcePushButtonMode::On, 50_000);
    assert!(complex.left.valve.open_amount > 0);
    assert!(complex.right.valve.open_amount > 0);
    assert!(complex.left.controller.get_timer() == 0);
    assert!(complex.right.controller.get_timer() == 0);

    complex.set_on_ground(true);
    tick(&mut complex, 500, WingAntiIcePushButtonMode::On, 50_000);
    assert!(complex.left.valve.open_amount > 0);
    assert!(complex.right.valve.open_amount > 0);
    assert!(complex.left.controller.get_timer() > 0);
    assert!(complex.right.controller.get_timer() > 0);

    tick(&mut complex, 30_000, WingAntiIcePushButtonMode::On, 50_000);
    assert!(complex.left.valve.open_amount == 0);
    assert!(complex.right.valve.open_amount == 0);
}
