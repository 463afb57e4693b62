use airsystems::flaps_computer::FlapsConf;
use airsystems::flaps_computer::FlapsHandle;
use airsystems::flaps_computer::SlatFlapControlComputer;
use airsystems::flaps_computer::SlatFlapControlComplex;

// Configuration lookup table round-trip: each of the six configurations
// maps to its fixed flap and slat target angles (milli-degrees).
#[test]
fn flaps_configuration_angle_table() {
    let confs = [
        FlapsConf::Conf0,
        FlapsConf::Conf1,
        FlapsConf::Conf1F,
        FlapsConf::Conf2,
        FlapsConf::Conf3,
        FlapsConf::ConfFull,
    ];
    let flaps = [0i64, 0, 10_000, 15_000, 20_000, 40_000];
    let slats = [0i64, 18_000, 18_000, 22_000, 22_000, 27_000];
    for i in 0..6 {
        assert_eq!(SlatFlapControlComputer::target_flaps_angle_from_state(confs[i]), flaps[i]);
        assert_eq!(SlatFlapControlComputer::target_slats_angle_from_state(confs[i]), slats[i]);
    }
}

// Handle transition determinism: the sequence [0,1,0,3,0,4] at airspeed 0
// resolves to [Conf0, Conf1F, Conf0, Conf3, Conf0, ConfFull], with
// irregular jumps going directly to their target configuration.
#[test]
fn flaps_handle_sequence_resolves_directly() {
    let mut complex = SlatFlapControlComplex::new();
    let positions = [0usize, 1, 0, 3, 0, 4];
    let expected = [
        FlapsConf::Conf0,
        FlapsConf::Conf1F,
        FlapsConf::Conf0,
        FlapsConf::Conf3,
        FlapsConf::Conf0,
        FlapsConf::ConfFull,
    ];
    for i in 0..6 {
        complex.set_handle_position(positions[i]);
        complex.update(0);
        assert_eq!(complex.sfcc().flaps_conf, expected[i]);
    }
}

#[test]
fn flaps_test_regular_handle_increase_transitions_below_100() {
    let mut complex = SlatFlapControlComplex::new();
    complex.update(50);
    assert_eq!(complex.sfcc().flaps_conf, FlapsConf::Conf0);
    assert_eq!(complex.sfcc().flaps_demanded_angle, 0);
    assert_eq!(complex.sfcc().slats_demanded_angle, 0);

    complex.set_handle_position(1);
    complex.update(50);
    assert_eq!(complex.sfcc().flaps_conf, FlapsConf::Conf1F);
    assert_eq!(complex.sfcc().flaps_demanded_angle, 10_000);
    assert_eq!(complex.sfcc().slats_demanded_angle, 18_000);

    complex.set_handle_position(2);
    complex.update(50);
    assert_eq!(complex.sfcc().flaps_conf, FlapsConf::Conf2);
    assert_eq!(complex.sfcc().flaps_demanded_angle, 15_000);
    assert_eq!(complex.sfcc().slats_demanded_angle, 22_000);

    complex.set_handle_position(3);
    complex.update(50);
    assert_eq!(complex.sfcc().flaps_conf, FlapsConf::Conf3);
    assert_eq!(complex.sfcc().flaps_demanded_angle, 20_000);
    assert_eq!(complex.sfcc().slats_demanded_angle, 22_000);

    complex.set_handle_position(4);
    complex.update(50);
    assert_eq!(complex.sfcc().flaps_conf, FlapsConf::ConfFull);
    assert_eq!(complex.sfcc().flaps_demanded_angle, 40_000);
    assert_eq!(complex.sfcc().slats_demanded_angle, 27_000);
}

#[test]
fn flaps_test_regular_handle_increase_transitions_above_100() {
    let mut complex = SlatFlapControlComplex::new();
    complex.update(150);
    assert_eq!(complex.sfcc().flaps_conf, FlapsConf::Conf0);

    complex.set_handle_position(1);
    complex.update(150);
    assert_eq!(complex.sfcc().flaps_conf, FlapsConf::Conf1);
    assert_eq!(complex.sfcc().flaps_demanded_angle, 0);
    assert_eq!(complex.sfcc().slats_demanded_angle, 18_000);

    complex.set_handle_position(2);
    complex.update(150);
    assert_eq!(complex.sfcc().flaps_conf, FlapsConf::Conf2);
}

// Moving back to position 1 resolves on airspeed: Conf1F at or below 210
// knots, Conf1 above.
#[test]
fn flaps_test_regular_handle_transition_pos_2_to_1() {
    let mut complex = SlatFlapControlComplex::new();
    complex.set_handle_position(2);
    complex.update(150);
    assert_eq!(complex.sfcc().flaps_conf, FlapsConf::Conf2);

    complex.set_handle_position(1);
    complex.update(150);
    assert_eq!(complex.sfcc().flaps_conf, FlapsConf::Conf1F);

    complex.set_handle_position(2);
    complex.update(220);
    assert_eq!(complex.sfcc().flaps_conf, FlapsConf::Conf2);

    complex.set_handle_position(1);
    complex.update(220);
    assert_eq!(complex.sfcc().flaps_conf, FlapsConf::Conf1);
}

// Resting at position 1, crossing 210 knots re-resolves Conf1F to Conf1,
// and the boundary is inclusive on the low side.
#[test]
fn flaps_test_regular_handle_transition_pos_1_to_1() {
    let mut complex = SlatFlapControlComplex::new();
    complex.set_handle_position(1);
    complex.update(50);
    assert_eq!(complex.sfcc().flaps_conf, FlapsConf::Conf1F);

    complex.update(150);
    assert_eq!(complex.sfcc().flaps_conf, FlapsConf::Conf1F);

    complex.update(210);
    assert_eq!(complex.sfcc().flaps_conf, FlapsConf::Conf1F);

    complex.update(220);
    assert_eq!(complex.sfcc().flaps_conf, FlapsConf::Conf1);
}

#[test]
fn flaps_test_irregular_handle_transitions() {
    let mut complex = SlatFlapControlComplex::new();
    complex.set_handle_position(0);
    complex.update(0);

    complex.set_handle_position(2);
    complex.update(0);
    assert_eq!(complex.sfcc().flaps_conf, FlapsConf::Conf2);

    complex.set_handle_position(0);
    complex.update(0);
    assert_eq!(complex.sfcc().flaps_conf, FlapsConf::Conf0);

    complex.set_handle_position(3);
    complex.update(110);
    assert_eq!(complex.sfcc().flaps_conf, FlapsConf::Conf3);

    complex.set_handle_position(1);
    complex.update(110);
    assert_eq!(complex.sfcc().flaps_conf, FlapsConf::Conf1F);

    complex.set_handle_position(4);
    complex.update(220);
    assert_eq!(complex.sfcc().flaps_conf, FlapsConf::ConfFull);

    complex.set_handle_position(1);
    complex.update(220);
    assert_eq!(complex.sfcc().flaps_conf, FlapsConf::Conf1);
}

// Out-of-range raw indices saturate to the last configuration.
#[test]
fn flaps_conf_from_raw_index_saturates() {
    assert_eq!(FlapsConf::from(0usize), FlapsConf::Conf0);
    assert_eq!(FlapsConf::from(1usize), FlapsConf::Conf1);
    assert_eq!(FlapsConf::from(2usize), FlapsConf::Conf1F);
    assert_eq!(FlapsConf::from(3usize), FlapsConf::Conf2);
    assert_eq!(FlapsConf::from(4usize), FlapsConf::Conf3);
    assert_eq!(FlapsConf::from(5usize), FlapsConf::ConfFull);
    assert_eq!(FlapsConf::from(9usize), FlapsConf::ConfFull);
}

// A movement signal is produced exactly while the surface is more than
// 0.01 degrees away from the demanded angle.
#[test]
fn flaps_movement_signal_tolerance() {
    let mut computer = SlatFlapControlComputer::new();
    computer.update(0, Some((0, 1)));
    assert_eq!(computer.flaps_demanded_angle, 10_000);

    assert_eq!(computer.signal_flap_movement(0), Some(10_000));
    assert_eq!(computer.signal_flap_movement(9_989), Some(10_000));
    assert_eq!(computer.signal_flap_movement(9_990), None);
    assert_eq!(computer.signal_flap_movement(10_000), None);
    assert_eq!(computer.signal_flap_movement(10_010), None);
    assert_eq!(computer.signal_flap_movement(10_011), Some(10_000));

    assert_eq!(computer.signal_slat_movement(0), Some(18_000));
    assert_eq!(computer.signal_slat_movement(18_005), None);
}

// The handle reports a synthetic (1, 1) transition while resting at
// position 1 and nothing while resting elsewhere.
#[test]
fn flaps_handle_reports_transitions() {
    let mut handle = FlapsHandle::new();
    assert_eq!(handle.signal_new_position(), None);

    handle.set_handle_position(1);
    assert_eq!(handle.signal_new_position(), Some((0, 1)));
    handle.equilibrate_old_and_current();
    assert_eq!(handle.signal_new_position(), Some((1, 1)));

    handle.set_handle_position(3);
    assert_eq!(handle.signal_new_position(), Some((1, 3)));
    handle.equilibrate_old_and_current();
    assert_eq!(handle.signal_new_position(), None);
}
