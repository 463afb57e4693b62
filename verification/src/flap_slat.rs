//! Flap/slat drive: two redundant hydraulic motors behind a differential
//! gearbox move a control arm toward a commanded synchro angle.
//!
//! Angles are synchro-referenced micro-degrees, angular speeds
//! micro-degrees per second, motor speeds milli-RPM, pressures milli-psi,
//! displacements thousandths of a cubic inch, flows micro-gallons per
//! minute and accumulated volumes micro-gallons.

use crate::container::clamp;
use crate::decay::decay_pow;
use crate::decay::lemma_pow_base_monotone;
use crate::decay::lemma_pow_frac_add_bound;
use crate::decay::lemma_pow_frac_additive_error;
use crate::decay::lemma_pow_frac_bounds;
use crate::decay::lemma_pow_frac_decreasing;
use crate::decay::pow_frac;
use vstd::arithmetic::power::pow;
use crate::decay::FRAC_ONE;
use crate::decay::MAX_TICK_MS;
use vstd::prelude::*;

verus! {

/// Per-millisecond retained fraction of a motor's speed error for the
/// spool-up time constant of 0.5 s, in Q32: floor(FRAC_ONE * e^(-0.002)).
pub const MOTOR_DECAY_PER_MS: u64 = 4_286_385_945;

/// Filtered speeds below this snap to exactly zero (20 RPM).
pub const MOTOR_SNAP_THRESHOLD_MRPM: i64 = 20_000;

/// Largest motor speed the model admits, in milli-RPM.
pub const MOTOR_SPEED_LIMIT_MRPM: i64 = 10_000_000_000;

/// Largest motor displacement, in thousandths of a cubic inch.
pub const MOTOR_DISPLACEMENT_MAX: i64 = 100_000;

/// Largest motor flow, in micro-gallons per minute.
pub const MOTOR_FLOW_LIMIT_UGPM: i64 = 5_000_000_000_000;

/// Volume accumulators saturate at this many micro-gallons.
pub const MOTOR_VOLUME_ACC_MAX_UGAL: i64 = 4_000_000_000_000_000_000;

/// Combined left+right pressure below which the assembly cannot move
/// (800 psi, the minimum brake-release pressure).
pub const BRAKE_PRESSURE_MIN_COMBINED_MPSI: i64 = 800_000;

/// Full-pressure reference: twice the 3000 psi circuit pressure.
pub const MAX_COMBINED_PRESSURE_MPSI: i64 = 6_000_000;

/// Largest hydraulic pressure accepted per circuit (10000 psi).
pub const HYD_PRESSURE_MAX_MPSI: i64 = 10_000_000;

/// Position error below which the approach speed limit engages
/// (6.69 degrees).
pub const ANGLE_THRESHOLD_REDUCED_SPEED_UDEG: i64 = 6_690_000;

/// Approach speed limit in control-arm micro-degrees per second
/// (0.05 rad/s); converted to synchro space at construction.
pub const APPROACH_SPEED_LIMIT_ARM_UDEG_S: i64 = 2_864_789;

/// First-order lag: the speed error to the target is multiplied by the
/// retained Q32 fraction, rounded toward the target.
pub open spec fn motor_lag(speed: int, target: int, retained: int) -> int {
    if target >= speed {
        target - (target - speed) * retained / (FRAC_ONE as int)
    } else {
        target + (speed - target) * retained / (FRAC_ONE as int)
    }
}

/// Speed after one filter step: the lag output, snapped to zero when it
/// falls below the snap threshold (so reverse rotation is also held at
/// zero).
pub open spec fn motor_speed_after(speed: int, target: int, retained: int) -> int {
    let filtered = motor_lag(speed, target, retained);
    if filtered < MOTOR_SNAP_THRESHOLD_MRPM {
        0
    } else {
        filtered
    }
}

/// Motor flow from speed and displacement: `rpm * cubic_inches / 231`
/// gallons per minute, in micro-gallons per minute here.
pub open spec fn motor_flow(speed_mrpm: int, displacement: int) -> int {
    speed_mrpm * displacement / 231
}

/// Torque available from a motor at a given pressure, in milli-newton-
/// metres: `0.113 * psi * cubic_inches / 6.28`.
pub open spec fn spec_torque(pressure: int, displacement: int) -> int {
    113 * pressure * displacement / 6_280_000
}

/// The lag output lies between the current speed and the target.
pub proof fn lemma_motor_lag_between(speed: int, target: int, retained: int)
    requires
        0 <= retained <= FRAC_ONE,
    ensures
        speed <= target ==> speed <= motor_lag(speed, target, retained) <= target,
        target <= speed ==> target <= motor_lag(speed, target, retained) <= speed,
{
    if target >= speed {
        let err = target - speed;
        assert(0 <= err * retained <= err * (FRAC_ONE as int)) by (nonlinear_arith)
            requires
                0 <= err,
                0 <= retained <= FRAC_ONE,
        ;
        assert(0 <= err * retained / (FRAC_ONE as int) <= err) by (nonlinear_arith)
            requires
                0 <= err * retained <= err * (FRAC_ONE as int),
        ;
    } else {
        let err = speed - target;
        assert(0 <= err * retained <= err * (FRAC_ONE as int)) by (nonlinear_arith)
            requires
                0 <= err,
                0 <= retained <= FRAC_ONE,
        ;
        assert(0 <= err * retained / (FRAC_ONE as int) <= err) by (nonlinear_arith)
            requires
                0 <= err * retained <= err * (FRAC_ONE as int),
        ;
    }
}

/// One hydraulic motor: its spooled speed, fixed displacement, current
/// flow and the volume counters used by the hydraulic-circuit accounting.
pub struct FlapSlatHydraulicMotor {
    pub speed_mrpm: i64,
    pub displacement: i64,
    pub current_flow_ugpm: i64,
    pub total_volume_to_actuator_ugal: i64,
    pub total_volume_returned_to_reservoir_ugal: i64,
}

impl FlapSlatHydraulicMotor {
    pub open spec fn wf(self) -> bool {
        &&& 0 <= self.speed_mrpm <= MOTOR_SPEED_LIMIT_MRPM
        &&& 0 <= self.displacement <= MOTOR_DISPLACEMENT_MAX
        &&& 0 <= self.current_flow_ugpm <= MOTOR_FLOW_LIMIT_UGPM
        &&& 0 <= self.total_volume_to_actuator_ugal <= MOTOR_VOLUME_ACC_MAX_UGAL
        &&& 0 <= self.total_volume_returned_to_reservoir_ugal <= MOTOR_VOLUME_ACC_MAX_UGAL
    }

    pub fn new(displacement: i64) -> (r: Self)
        requires
            0 <= displacement <= MOTOR_DISPLACEMENT_MAX,
        ensures
            r.wf(),
            r.speed_mrpm == 0,
            r.displacement == displacement,
            r.current_flow_ugpm == 0,
            r.total_volume_to_actuator_ugal == 0,
            r.total_volume_returned_to_reservoir_ugal == 0,
    {
        FlapSlatHydraulicMotor {
            speed_mrpm: 0,
            displacement,
            current_flow_ugpm: 0,
            total_volume_to_actuator_ugal: 0,
            total_volume_returned_to_reservoir_ugal: 0,
        }
    }

    /// One filter tick toward the requested speed, then flow and volume
    /// accounting: flow follows the spooled speed, and both volume
    /// counters accumulate the flow over the tick, saturating at their
    /// bound.
    pub fn update_speed(&mut self, target_mrpm: i64, dt_ms: u64)
        requires
            old(self).wf(),
            -MOTOR_SPEED_LIMIT_MRPM <= target_mrpm <= MOTOR_SPEED_LIMIT_MRPM,
            dt_ms <= MAX_TICK_MS,
        ensures
            final(self).wf(),
            final(self).speed_mrpm == motor_speed_after(
                old(self).speed_mrpm as int,
                target_mrpm as int,
                pow_frac(MOTOR_DECAY_PER_MS as int, dt_ms as nat),
            ),
            final(self).current_flow_ugpm == motor_flow(
                final(self).speed_mrpm as int,
                old(self).displacement as int,
            ),
            final(self).total_volume_to_actuator_ugal == clamp(
                old(self).total_volume_to_actuator_ugal + final(self).current_flow_ugpm * dt_ms
                    / 60_000,
                0,
                MOTOR_VOLUME_ACC_MAX_UGAL as int,
            ),
            final(self).total_volume_returned_to_reservoir_ugal == clamp(
                old(self).total_volume_returned_to_reservoir_ugal + final(self).current_flow_ugpm
                    * dt_ms / 60_000,
                0,
                MOTOR_VOLUME_ACC_MAX_UGAL as int,
            ),
            final(self).displacement == old(self).displacement,
    {
        let retained: u64 = decay_pow(MOTOR_DECAY_PER_MS, dt_ms);
        proof {
            lemma_pow_frac_bounds(MOTOR_DECAY_PER_MS as int, dt_ms as nat);
            lemma_motor_lag_between(self.speed_mrpm as int, target_mrpm as int, retained as int);
        }
        let filtered: i64 = if target_mrpm >= self.speed_mrpm {
            let err: i64 = target_mrpm - self.speed_mrpm;
            proof {
                assert((err as int) * (retained as int) <= (err as int) * (FRAC_ONE as int))
                    by (nonlinear_arith)
                    requires
                        0 <= err,
                        0 <= retained <= FRAC_ONE,
                ;
                assert((err as int) * (retained as int) / (FRAC_ONE as int) <= err)
                    by (nonlinear_arith)
                    requires
                        0 <= err,
                        (err as int) * (retained as int) <= (err as int) * (FRAC_ONE as int),
                ;
            }
            let shrunk128: u128 = (err as u128) * (retained as u128) / (FRAC_ONE as u128);
            target_mrpm - shrunk128 as i64
        } else {
            let err: i64 = self.speed_mrpm - target_mrpm;
            proof {
                assert((err as int) * (retained as int) <= (err as int) * (FRAC_ONE as int))
                    by (nonlinear_arith)
                    requires
                        0 <= err,
                        0 <= retained <= FRAC_ONE,
                ;
                assert((err as int) * (retained as int) / (FRAC_ONE as int) <= err)
                    by (nonlinear_arith)
                    requires
                        0 <= err,
                        (err as int) * (retained as int) <= (err as int) * (FRAC_ONE as int),
                ;
            }
            let shrunk128: u128 = (err as u128) * (retained as u128) / (FRAC_ONE as u128);
            target_mrpm + shrunk128 as i64
        };
        self.speed_mrpm = if filtered < MOTOR_SNAP_THRESHOLD_MRPM {
            0
        } else {
            filtered
        };

        proof {
            assert(0 <= self.speed_mrpm * self.displacement <= MOTOR_SPEED_LIMIT_MRPM
                * MOTOR_DISPLACEMENT_MAX) by (nonlinear_arith)
                requires
                    0 <= self.speed_mrpm <= MOTOR_SPEED_LIMIT_MRPM,
                    0 <= self.displacement <= MOTOR_DISPLACEMENT_MAX,
            ;
            assert(0 <= self.speed_mrpm * self.displacement / 231 <= self.speed_mrpm
                * self.displacement) by (nonlinear_arith)
                requires
                    0 <= self.speed_mrpm * self.displacement,
            ;
            assert(self.speed_mrpm * self.displacement / 231 <= MOTOR_FLOW_LIMIT_UGPM)
                by (nonlinear_arith)
                requires
                    0 <= self.speed_mrpm * self.displacement <= MOTOR_SPEED_LIMIT_MRPM
                        * MOTOR_DISPLACEMENT_MAX,
            ;
        }
        self.current_flow_ugpm = self.speed_mrpm * self.displacement / 231;

        let added: i64 = Self::flow_volume(self.current_flow_ugpm, dt_ms);
        self.total_volume_to_actuator_ugal = Self::saturating_acc(
            self.total_volume_to_actuator_ugal,
            added,
        );
        self.total_volume_returned_to_reservoir_ugal = Self::saturating_acc(
            self.total_volume_returned_to_reservoir_ugal,
            added,
        );
    }

    /// Volume moved during one tick at the given flow.
    fn flow_volume(flow_ugpm: i64, dt_ms: u64) -> (r: i64)
        requires
            0 <= flow_ugpm <= MOTOR_FLOW_LIMIT_UGPM,
            dt_ms <= MAX_TICK_MS,
        ensures
            r == flow_ugpm * dt_ms / 60_000,
            0 <= r <= 1_000_000_000_000_000_000,
    {
        proof {
            assert(0 <= (flow_ugpm as int) * (dt_ms as int) <= (MOTOR_FLOW_LIMIT_UGPM as int) * (
            MAX_TICK_MS as int)) by (nonlinear_arith)
                requires
                    0 <= flow_ugpm <= MOTOR_FLOW_LIMIT_UGPM,
                    0 <= dt_ms <= MAX_TICK_MS,
            ;
            assert((flow_ugpm as int) * (dt_ms as int) / 60_000 <= (flow_ugpm as int) * (
            dt_ms as int)) by (nonlinear_arith)
                requires
                    0 <= (flow_ugpm as int) * (dt_ms as int),
            ;
        }
        let wide: u128 = (flow_ugpm as u128) * (dt_ms as u128) / 60_000;
        wide as i64
    }

    fn saturating_acc(acc: i64, added: i64) -> (r: i64)
        requires
            0 <= acc <= MOTOR_VOLUME_ACC_MAX_UGAL,
            0 <= added <= 1_000_000_000_000_000_000,
        ensures
            r == clamp(acc + added, 0, MOTOR_VOLUME_ACC_MAX_UGAL as int),
    {
        if acc > MOTOR_VOLUME_ACC_MAX_UGAL - added {
            MOTOR_VOLUME_ACC_MAX_UGAL
        } else {
            acc + added
        }
    }

    /// Torque available at the given pressure, in milli-newton-metres.
    pub fn torque_mnm(&self, pressure_mpsi: i64) -> (r: i64)
        requires
            self.wf(),
            0 <= pressure_mpsi <= HYD_PRESSURE_MAX_MPSI,
        ensures
            r == spec_torque(pressure_mpsi as int, self.displacement as int),
            0 <= r <= 18_000_000,
    {
        proof {
            assert(0 <= 113 * pressure_mpsi * self.displacement <= 113 * HYD_PRESSURE_MAX_MPSI
                * MOTOR_DISPLACEMENT_MAX) by (nonlinear_arith)
                requires
                    0 <= pressure_mpsi <= HYD_PRESSURE_MAX_MPSI,
                    0 <= self.displacement <= MOTOR_DISPLACEMENT_MAX,
            ;
            assert(113 * pressure_mpsi * self.displacement / 6_280_000 <= 18_000_000)
                by (nonlinear_arith)
                requires
                    0 <= 113 * pressure_mpsi * self.displacement <= 113 * HYD_PRESSURE_MAX_MPSI
                        * MOTOR_DISPLACEMENT_MAX,
            ;
        }
        113 * pressure_mpsi * self.displacement / 6_280_000
    }

    pub fn flow(&self) -> (r: i64)
        ensures
            r == self.current_flow_ugpm,
    {
        self.current_flow_ugpm
    }

    /// Volume delivered to the actuator since the last reset.
    pub fn used_volume(&self) -> (r: i64)
        ensures
            r == self.total_volume_to_actuator_ugal,
    {
        self.total_volume_to_actuator_ugal
    }

    /// Volume returned to the reservoir since the last reset.
    pub fn reservoir_return(&self) -> (r: i64)
        ensures
            r == self.total_volume_returned_to_reservoir_ugal,
    {
        self.total_volume_returned_to_reservoir_ugal
    }

    pub fn reset_accumulators(&mut self)
        ensures
            *final(self) == (FlapSlatHydraulicMotor {
                total_volume_to_actuator_ugal: 0,
                total_volume_returned_to_reservoir_ugal: 0,
                ..*old(self)
            }),
    {
        self.total_volume_to_actuator_ugal = 0;
        self.total_volume_returned_to_reservoir_ugal = 0;
    }
}


/// The state of one motor after one filter-and-accounting tick.
pub open spec fn motor_after(m: FlapSlatHydraulicMotor, target: int, dt_ms: int) -> FlapSlatHydraulicMotor {
    let retained = pow_frac(MOTOR_DECAY_PER_MS as int, dt_ms as nat);
    let sp = motor_speed_after(m.speed_mrpm as int, target, retained);
    let fl = motor_flow(sp, m.displacement as int);
    let add = fl * dt_ms / 60_000;
    FlapSlatHydraulicMotor {
        speed_mrpm: sp as i64,
        displacement: m.displacement,
        current_flow_ugpm: fl as i64,
        total_volume_to_actuator_ugal: clamp(
            m.total_volume_to_actuator_ugal + add,
            0,
            MOTOR_VOLUME_ACC_MAX_UGAL as int,
        ) as i64,
        total_volume_returned_to_reservoir_ugal: clamp(
            m.total_volume_returned_to_reservoir_ugal + add,
            0,
            MOTOR_VOLUME_ACC_MAX_UGAL as int,
        ) as i64,
    }
}

/// Largest synchro position the model admits, in micro-degrees.
pub const SYNCHRO_POSITION_MAX_UDEG: i64 = 1_000_000_000;

/// Largest configured assembly speed, in synchro micro-degrees per second.
pub const ASSEMBLY_SPEED_MAX_UDEG_S: i64 = 100_000_000;

/// Largest instantaneous assembly speed: the configured maximum scaled by
/// the widest pressure ratio.
pub const ASSEMBLY_SPEED_LIMIT_UDEG_S: i64 = 400_000_000;

/// Whether the drive is moving toward the request and already within the
/// reduced-speed threshold of it (using last tick's direction of motion).
pub open spec fn spec_is_approaching(pos: int, speed: int, req_c: int) -> bool {
    (speed > 0 && req_c - pos < ANGLE_THRESHOLD_REDUCED_SPEED_UDEG) || (speed < 0 && pos - req_c
        < ANGLE_THRESHOLD_REDUCED_SPEED_UDEG)
}

/// Maximum angular speed for this tick: zero below the minimum combined
/// pressure, otherwise proportional to the combined pressure against the
/// full-pressure reference, capped by the approach limit near the target.
pub open spec fn spec_current_max_speed(
    full_speed: int,
    approach_limit: int,
    pos: int,
    speed: int,
    req_c: int,
    pl: int,
    pr: int,
) -> int {
    if pl + pr > BRAKE_PRESSURE_MIN_COMBINED_MPSI {
        let scaled = full_speed * (pl + pr) / (MAX_COMBINED_PRESSURE_MPSI as int);
        if spec_is_approaching(pos, speed, req_c) && scaled > approach_limit {
            approach_limit
        } else {
            scaled
        }
    } else {
        0
    }
}

/// One servo tick: position, signed speed and max speed after moving
/// toward the clamped request, snapping to it on overshoot and clamping
/// to the mechanical range.
pub open spec fn spec_servo_step(
    max_pos: int,
    full_speed: int,
    approach_limit: int,
    pos: int,
    speed: int,
    req: int,
    pl: int,
    pr: int,
    dt_ms: int,
) -> (int, int, int) {
    let req_c = clamp(req, 0, max_pos);
    let cms = spec_current_max_speed(full_speed, approach_limit, pos, speed, req_c, pl, pr);
    let step = cms * dt_ms / 1000;
    if req_c > pos {
        let p1 = pos + step;
        let p2 = if cms > 0 && req_c < p1 {
            req_c
        } else {
            p1
        };
        (clamp(p2, 0, max_pos), cms, cms)
    } else if req_c < pos {
        let p1 = pos - step;
        let p2 = if -cms < 0 && req_c > p1 {
            req_c
        } else {
            p1
        };
        (clamp(p2, 0, max_pos), -cms, cms)
    } else {
        (clamp(pos, 0, max_pos), 0, cms)
    }
}

/// Shaft speed seen by the motors: the synchro-space speed multiplied by
/// the synchro gear ratio, rounded toward zero.
pub open spec fn spec_shaft_speed(speed: int, synchro_milli: int) -> int {
    if speed >= 0 {
        speed * synchro_milli / 1000
    } else {
        -(-speed * synchro_milli / 1000)
    }
}

/// Requested speed for one motor: its permille share of the shaft speed by
/// torque capacity, geared up by the gearbox ratio and converted from
/// micro-degrees per second to milli-RPM. With no torque available at all
/// the request is zero rather than undefined.
pub open spec fn spec_motor_target(
    shaft: int,
    t_own: int,
    t_total: int,
    gearbox_milli: int,
) -> int {
    if t_total == 0 {
        0
    } else {
        let share = t_own * 1000 / t_total;
        if shaft >= 0 {
            ((shaft * share / 1000) * gearbox_milli / 1000) / 6000
        } else {
            -((((-shaft) * share / 1000) * gearbox_milli / 1000) / 6000)
        }
    }
}

/// The flap or slat drive assembly: a position servo at pressure-dependent
/// speed, driving two redundant hydraulic motors by torque share.
pub struct FlapSlatAssembly {
    pub position_udeg: i64,
    pub max_synchro_gear_position_udeg: i64,
    pub current_speed_udeg_s: i64,
    pub current_max_speed_udeg_s: i64,
    pub full_pressure_max_speed_udeg_s: i64,
    pub approach_speed_limit_udeg_s: i64,
    pub synchro_gear_ratio_milli: i64,
    pub gearbox_ratio_milli: i64,
    pub flap_gear_ratio_milli: i64,
    pub left_motor: FlapSlatHydraulicMotor,
    pub right_motor: FlapSlatHydraulicMotor,
}

impl FlapSlatAssembly {
    pub open spec fn wf(self) -> bool {
        &&& 0 <= self.position_udeg <= self.max_synchro_gear_position_udeg
        &&& 0 <= self.max_synchro_gear_position_udeg <= SYNCHRO_POSITION_MAX_UDEG
        &&& 0 <= self.full_pressure_max_speed_udeg_s <= ASSEMBLY_SPEED_MAX_UDEG_S
        &&& 0 <= self.approach_speed_limit_udeg_s <= ASSEMBLY_SPEED_MAX_UDEG_S
        &&& -ASSEMBLY_SPEED_LIMIT_UDEG_S <= self.current_speed_udeg_s
            <= ASSEMBLY_SPEED_LIMIT_UDEG_S
        &&& 0 <= self.current_max_speed_udeg_s <= ASSEMBLY_SPEED_LIMIT_UDEG_S
        &&& 1 <= self.synchro_gear_ratio_milli <= 1_000_000
        &&& 1 <= self.gearbox_ratio_milli <= 100_000
        &&& 1 <= self.flap_gear_ratio_milli <= 1_000_000
        &&& self.left_motor.wf()
        &&& self.right_motor.wf()
    }

    /// Builds an assembly at position zero. The full-pressure and approach
    /// speeds are given in control-arm space and converted to synchro
    /// space through the flap-gear and synchro-gear ratios.
    pub fn new(
        motor_displacement: i64,
        full_pressure_max_speed_arm_udeg_s: i64,
        max_synchro_gear_position_udeg: i64,
        synchro_gear_ratio_milli: i64,
        gearbox_ratio_milli: i64,
        flap_gear_ratio_milli: i64,
    ) -> (r: Self)
        requires
            0 <= motor_displacement <= MOTOR_DISPLACEMENT_MAX,
            0 <= full_pressure_max_speed_arm_udeg_s <= 50_000_000,
            0 <= max_synchro_gear_position_udeg <= SYNCHRO_POSITION_MAX_UDEG,
            1 <= synchro_gear_ratio_milli <= 1_000_000,
            1 <= gearbox_ratio_milli <= 100_000,
            1 <= flap_gear_ratio_milli <= 1_000_000,
            full_pressure_max_speed_arm_udeg_s * flap_gear_ratio_milli / (
            synchro_gear_ratio_milli as int) <= ASSEMBLY_SPEED_MAX_UDEG_S,
            APPROACH_SPEED_LIMIT_ARM_UDEG_S * flap_gear_ratio_milli / (
            synchro_gear_ratio_milli as int) <= ASSEMBLY_SPEED_MAX_UDEG_S,
        ensures
            r.wf(),
            r.position_udeg == 0,
            r.current_speed_udeg_s == 0,
            r.current_max_speed_udeg_s == 0,
            r.max_synchro_gear_position_udeg == max_synchro_gear_position_udeg,
            r.full_pressure_max_speed_udeg_s == full_pressure_max_speed_arm_udeg_s
                * flap_gear_ratio_milli / (synchro_gear_ratio_milli as int),
            r.approach_speed_limit_udeg_s == APPROACH_SPEED_LIMIT_ARM_UDEG_S
                * flap_gear_ratio_milli / (synchro_gear_ratio_milli as int),
            r.synchro_gear_ratio_milli == synchro_gear_ratio_milli,
            r.gearbox_ratio_milli == gearbox_ratio_milli,
            r.flap_gear_ratio_milli == flap_gear_ratio_milli,
            r.left_motor == (FlapSlatHydraulicMotor {
                speed_mrpm: 0,
                displacement: motor_displacement,
                current_flow_ugpm: 0,
                total_volume_to_actuator_ugal: 0,
                total_volume_returned_to_reservoir_ugal: 0,
            }),
            r.right_motor == r.left_motor,
    {
        proof {
            assert(0 <= full_pressure_max_speed_arm_udeg_s * flap_gear_ratio_milli <= 50_000_000
                * 1_000_000) by (nonlinear_arith)
                requires
                    0 <= full_pressure_max_speed_arm_udeg_s <= 50_000_000,
                    0 <= flap_gear_ratio_milli <= 1_000_000,
            ;
            assert(0 <= full_pressure_max_speed_arm_udeg_s * flap_gear_ratio_milli / (
            synchro_gear_ratio_milli as int)) by (nonlinear_arith)
                requires
                    0 <= full_pressure_max_speed_arm_udeg_s * flap_gear_ratio_milli,
                    1 <= synchro_gear_ratio_milli,
            ;
            assert(0 <= APPROACH_SPEED_LIMIT_ARM_UDEG_S * flap_gear_ratio_milli <= 2_864_789
                * 1_000_000) by (nonlinear_arith)
                requires
                    0 <= flap_gear_ratio_milli <= 1_000_000,
            ;
            assert(0 <= APPROACH_SPEED_LIMIT_ARM_UDEG_S * flap_gear_ratio_milli / (
            synchro_gear_ratio_milli as int)) by (nonlinear_arith)
                requires
                    0 <= APPROACH_SPEED_LIMIT_ARM_UDEG_S * flap_gear_ratio_milli,
                    1 <= synchro_gear_ratio_milli,
            ;
        }
        let full_syn: i64 = full_pressure_max_speed_arm_udeg_s * flap_gear_ratio_milli
            / synchro_gear_ratio_milli;
        let approach_syn: i64 = APPROACH_SPEED_LIMIT_ARM_UDEG_S * flap_gear_ratio_milli
            / synchro_gear_ratio_milli;
        FlapSlatAssembly {
            position_udeg: 0,
            max_synchro_gear_position_udeg,
            current_speed_udeg_s: 0,
            current_max_speed_udeg_s: 0,
            full_pressure_max_speed_udeg_s: full_syn,
            approach_speed_limit_udeg_s: approach_syn,
            synchro_gear_ratio_milli,
            gearbox_ratio_milli,
            flap_gear_ratio_milli,
            left_motor: FlapSlatHydraulicMotor::new(motor_displacement),
            right_motor: FlapSlatHydraulicMotor::new(motor_displacement),
        }
    }

    /// The synchro-referenced position reported to the rest of the system.
    pub fn position_feedback(&self) -> (r: i64)
        ensures
            r == self.position_udeg,
    {
        self.position_udeg
    }

    /// One tick: clamp the request, derive this tick's maximum speed from
    /// the pressures and the approach zone, move the position, then spool
    /// the two motors at their torque shares of the shaft speed.
    pub fn update(
        &mut self,
        synchro_gear_angle_request_udeg: i64,
        left_pressure_mpsi: i64,
        right_pressure_mpsi: i64,
        dt_ms: u64,
    )
        requires
            old(self).wf(),
            0 <= left_pressure_mpsi <= HYD_PRESSURE_MAX_MPSI,
            0 <= right_pressure_mpsi <= HYD_PRESSURE_MAX_MPSI,
            dt_ms <= MAX_TICK_MS,
        ensures
            final(self).wf(),
            ({
                let (pos2, speed2, cms2) = spec_servo_step(
                    old(self).max_synchro_gear_position_udeg as int,
                    old(self).full_pressure_max_speed_udeg_s as int,
                    old(self).approach_speed_limit_udeg_s as int,
                    old(self).position_udeg as int,
                    old(self).current_speed_udeg_s as int,
                    synchro_gear_angle_request_udeg as int,
                    left_pressure_mpsi as int,
                    right_pressure_mpsi as int,
                    dt_ms as int,
                );
                let shaft = spec_shaft_speed(speed2, old(self).synchro_gear_ratio_milli as int);
                let t_left = spec_torque(
                    left_pressure_mpsi as int,
                    old(self).left_motor.displacement as int,
                );
                let t_right = spec_torque(
                    right_pressure_mpsi as int,
                    old(self).right_motor.displacement as int,
                );
                let t_total = t_left + t_right;
                let gearbox = old(self).gearbox_ratio_milli as int;
                &&& final(self).position_udeg == pos2
                &&& final(self).current_speed_udeg_s == speed2
                &&& final(self).current_max_speed_udeg_s == cms2
                &&& final(self).left_motor == motor_after(
                    old(self).left_motor,
                    spec_motor_target(shaft, t_left, t_total, gearbox),
                    dt_ms as int,
                )
                &&& final(self).right_motor == motor_after(
                    old(self).right_motor,
                    spec_motor_target(shaft, t_right, t_total, gearbox),
                    dt_ms as int,
                )
                &&& final(self).max_synchro_gear_position_udeg == old(
                    self,
                ).max_synchro_gear_position_udeg
                &&& final(self).full_pressure_max_speed_udeg_s == old(
                    self,
                ).full_pressure_max_speed_udeg_s
                &&& final(self).approach_speed_limit_udeg_s == old(self).approach_speed_limit_udeg_s
                &&& final(self).synchro_gear_ratio_milli == old(self).synchro_gear_ratio_milli
                &&& final(self).gearbox_ratio_milli == old(self).gearbox_ratio_milli
                &&& final(self).flap_gear_ratio_milli == old(self).flap_gear_ratio_milli
            }),
    {
        let req_c: i64 = if synchro_gear_angle_request_udeg < 0 {
            0
        } else if synchro_gear_angle_request_udeg > self.max_synchro_gear_position_udeg {
            self.max_synchro_gear_position_udeg
        } else {
            synchro_gear_angle_request_udeg
        };

        self.update_current_max_speed(req_c, left_pressure_mpsi, right_pressure_mpsi);
        self.update_speed_and_position(req_c, dt_ms);
        self.update_motor_flows(left_pressure_mpsi, right_pressure_mpsi, dt_ms);
    }

    /// Derives this tick's maximum speed from the combined pressure and
    /// the approach zone.
    fn update_current_max_speed(&mut self, req_c: i64, pl: i64, pr: i64)
        requires
            old(self).wf(),
            0 <= req_c <= old(self).max_synchro_gear_position_udeg,
            0 <= pl <= HYD_PRESSURE_MAX_MPSI,
            0 <= pr <= HYD_PRESSURE_MAX_MPSI,
        ensures
            final(self).current_max_speed_udeg_s == spec_current_max_speed(
                old(self).full_pressure_max_speed_udeg_s as int,
                old(self).approach_speed_limit_udeg_s as int,
                old(self).position_udeg as int,
                old(self).current_speed_udeg_s as int,
                req_c as int,
                pl as int,
                pr as int,
            ),
            0 <= final(self).current_max_speed_udeg_s <= ASSEMBLY_SPEED_LIMIT_UDEG_S,
            *final(self) == (FlapSlatAssembly {
                current_max_speed_udeg_s: final(self).current_max_speed_udeg_s,
                ..*old(self)
            }),
    {
        if pl + pr > BRAKE_PRESSURE_MIN_COMBINED_MPSI {
            proof {
                assert(0 <= self.full_pressure_max_speed_udeg_s * (pl + pr)
                    <= ASSEMBLY_SPEED_MAX_UDEG_S * (2 * HYD_PRESSURE_MAX_MPSI))
                    by (nonlinear_arith)
                    requires
                        0 <= self.full_pressure_max_speed_udeg_s <= ASSEMBLY_SPEED_MAX_UDEG_S,
                        0 <= pl + pr <= 2 * HYD_PRESSURE_MAX_MPSI,
                ;
                assert(self.full_pressure_max_speed_udeg_s * (pl + pr) / (
                MAX_COMBINED_PRESSURE_MPSI as int) <= ASSEMBLY_SPEED_LIMIT_UDEG_S)
                    by (nonlinear_arith)
                    requires
                        0 <= self.full_pressure_max_speed_udeg_s * (pl + pr)
                            <= ASSEMBLY_SPEED_MAX_UDEG_S * (2 * HYD_PRESSURE_MAX_MPSI),
                ;
            }
            let scaled: i64 = self.full_pressure_max_speed_udeg_s * (pl + pr)
                / MAX_COMBINED_PRESSURE_MPSI;
            let capped: i64 = if self.is_approaching_requested_position(req_c) && scaled
                > self.approach_speed_limit_udeg_s {
                self.approach_speed_limit_udeg_s
            } else {
                scaled
            };
            self.current_max_speed_udeg_s = capped;
        } else {
            self.current_max_speed_udeg_s = 0;
        }
    }

    /// Whether the drive is moving toward the request and already within
    /// the reduced-speed threshold of it.
    fn is_approaching_requested_position(&self, req_c: i64) -> (r: bool)
        requires
            self.wf(),
            0 <= req_c <= self.max_synchro_gear_position_udeg,
        ensures
            r == spec_is_approaching(
                self.position_udeg as int,
                self.current_speed_udeg_s as int,
                req_c as int,
            ),
    {
        (self.current_speed_udeg_s > 0 && req_c - self.position_udeg
            < ANGLE_THRESHOLD_REDUCED_SPEED_UDEG) || (self.current_speed_udeg_s < 0
            && self.position_udeg - req_c < ANGLE_THRESHOLD_REDUCED_SPEED_UDEG)
    }

    /// Moves the position toward the request at this tick's maximum speed,
    /// snapping exactly to it on overshoot and clamping to the range.
    fn update_speed_and_position(&mut self, req_c: i64, dt_ms: u64)
        requires
            old(self).wf(),
            0 <= req_c <= old(self).max_synchro_gear_position_udeg,
            dt_ms <= MAX_TICK_MS,
        ensures
            ({
                let step = old(self).current_max_speed_udeg_s * dt_ms / 1000;
                let cms = old(self).current_max_speed_udeg_s as int;
                let pos = old(self).position_udeg as int;
                let max_pos = old(self).max_synchro_gear_position_udeg as int;
                &&& (req_c > pos ==> {
                    let p1 = pos + step;
                    let p2 = if cms > 0 && req_c < p1 {
                        req_c as int
                    } else {
                        p1
                    };
                    final(self).position_udeg == clamp(p2, 0, max_pos)
                        && final(self).current_speed_udeg_s == cms
                })
                &&& (req_c < pos ==> {
                    let p1 = pos - step;
                    let p2 = if -cms < 0 && req_c > p1 {
                        req_c as int
                    } else {
                        p1
                    };
                    final(self).position_udeg == clamp(p2, 0, max_pos)
                        && final(self).current_speed_udeg_s == -cms
                })
                &&& (req_c == pos ==> final(self).position_udeg == pos
                    && final(self).current_speed_udeg_s == 0)
            }),
            *final(self) == (FlapSlatAssembly {
                position_udeg: final(self).position_udeg,
                current_speed_udeg_s: final(self).current_speed_udeg_s,
                ..*old(self)
            }),
            0 <= final(self).position_udeg <= old(self).max_synchro_gear_position_udeg,
    {
        proof {
            assert(0 <= self.current_max_speed_udeg_s * (dt_ms as i64)
                <= ASSEMBLY_SPEED_LIMIT_UDEG_S * (MAX_TICK_MS as int)) by (nonlinear_arith)
                requires
                    0 <= self.current_max_speed_udeg_s <= ASSEMBLY_SPEED_LIMIT_UDEG_S,
                    0 <= dt_ms <= MAX_TICK_MS,
            ;
        }
        let step: i64 = self.current_max_speed_udeg_s * (dt_ms as i64) / 1000;
        if req_c > self.position_udeg {
            let p1: i64 = self.position_udeg + step;
            let p2: i64 = if self.current_max_speed_udeg_s > 0 && req_c < p1 {
                req_c
            } else {
                p1
            };
            self.position_udeg = if p2 < 0 {
                0
            } else if p2 > self.max_synchro_gear_position_udeg {
                self.max_synchro_gear_position_udeg
            } else {
                p2
            };
            self.current_speed_udeg_s = self.current_max_speed_udeg_s;
        } else if req_c < self.position_udeg {
            let p1: i64 = self.position_udeg - step;
            let p2: i64 = if req_c > p1 {
                req_c
            } else {
                p1
            };
            let p3: i64 = if self.current_max_speed_udeg_s > 0 {
                p2
            } else {
                p1
            };
            self.position_udeg = if p3 < 0 {
                0
            } else if p3 > self.max_synchro_gear_position_udeg {
                self.max_synchro_gear_position_udeg
            } else {
                p3
            };
            self.current_speed_udeg_s = -self.current_max_speed_udeg_s;
        } else {
            self.current_speed_udeg_s = 0;
        }
    }

    /// Splits the shaft load across the two motors in proportion to their
    /// pressure-derived torque capacity and spools each motor.
    fn update_motor_flows(&mut self, pl: i64, pr: i64, dt_ms: u64)
        requires
            old(self).wf(),
            0 <= pl <= HYD_PRESSURE_MAX_MPSI,
            0 <= pr <= HYD_PRESSURE_MAX_MPSI,
            dt_ms <= MAX_TICK_MS,
        ensures
            ({
                let shaft = spec_shaft_speed(
                    old(self).current_speed_udeg_s as int,
                    old(self).synchro_gear_ratio_milli as int,
                );
                let t_left = spec_torque(pl as int, old(self).left_motor.displacement as int);
                let t_right = spec_torque(pr as int, old(self).right_motor.displacement as int);
                let t_total = t_left + t_right;
                let gearbox = old(self).gearbox_ratio_milli as int;
                &&& final(self).left_motor == motor_after(
                    old(self).left_motor,
                    spec_motor_target(shaft, t_left, t_total, gearbox),
                    dt_ms as int,
                )
                &&& final(self).right_motor == motor_after(
                    old(self).right_motor,
                    spec_motor_target(shaft, t_right, t_total, gearbox),
                    dt_ms as int,
                )
            }),
            final(self).left_motor.wf(),
            final(self).right_motor.wf(),
            *final(self) == (FlapSlatAssembly {
                left_motor: final(self).left_motor,
                right_motor: final(self).right_motor,
                ..*old(self)
            }),
    {
        let t_left: i64 = self.left_motor.torque_mnm(pl);
        let t_right: i64 = self.right_motor.torque_mnm(pr);
        let t_total: i64 = t_left + t_right;

        let shaft_abs: i64 = Self::shaft_speed_abs(
            self.current_speed_udeg_s,
            self.synchro_gear_ratio_milli,
        );
        let negative: bool = self.current_speed_udeg_s < 0;

        let target_left: i64 = Self::motor_target_from_share(
            shaft_abs,
            negative,
            t_left,
            t_total,
            self.gearbox_ratio_milli,
        );
        let target_right: i64 = Self::motor_target_from_share(
            shaft_abs,
            negative,
            t_right,
            t_total,
            self.gearbox_ratio_milli,
        );

        self.left_motor.update_speed(target_left, dt_ms);
        self.right_motor.update_speed(target_right, dt_ms);
    }

    /// Magnitude of the shaft speed.
    fn shaft_speed_abs(speed: i64, synchro_milli: i64) -> (r: i64)
        requires
            -ASSEMBLY_SPEED_LIMIT_UDEG_S <= speed <= ASSEMBLY_SPEED_LIMIT_UDEG_S,
            1 <= synchro_milli <= 1_000_000,
        ensures
            speed >= 0 ==> r == spec_shaft_speed(speed as int, synchro_milli as int),
            speed < 0 ==> -r == spec_shaft_speed(speed as int, synchro_milli as int),
            0 <= r <= 400_000_000_000,
    {
        let mag: i64 = if speed >= 0 {
            speed
        } else {
            -speed
        };
        proof {
            assert(0 <= mag * synchro_milli <= ASSEMBLY_SPEED_LIMIT_UDEG_S * 1_000_000)
                by (nonlinear_arith)
                requires
                    0 <= mag <= ASSEMBLY_SPEED_LIMIT_UDEG_S,
                    0 <= synchro_milli <= 1_000_000,
            ;
            assert(mag * synchro_milli / 1000 <= 400_000_000_000) by (nonlinear_arith)
                requires
                    0 <= mag * synchro_milli <= ASSEMBLY_SPEED_LIMIT_UDEG_S * 1_000_000,
            ;
        }
        mag * synchro_milli / 1000
    }

    /// One motor's requested speed from its torque share.
    fn motor_target_from_share(
        shaft_abs: i64,
        negative: bool,
        t_own: i64,
        t_total: i64,
        gearbox_milli: i64,
    ) -> (r: i64)
        requires
            0 <= shaft_abs <= 400_000_000_000,
            0 <= t_own <= t_total,
            t_total <= 40_000_000,
            1 <= gearbox_milli <= 100_000,
        ensures
            ({
                let shaft = if negative {
                    -(shaft_abs as int)
                } else {
                    shaft_abs as int
                };
                r == spec_motor_target(shaft, t_own as int, t_total as int, gearbox_milli as int)
            }),
            -MOTOR_SPEED_LIMIT_MRPM <= r <= MOTOR_SPEED_LIMIT_MRPM,
    {
        if t_total == 0 {
            0
        } else {
            proof {
                assert(0 <= t_own * 1000 <= 40_000_000_000int) by (nonlinear_arith)
                    requires
                        0 <= t_own <= 40_000_000,
                ;
                assert(0 <= t_own * 1000 / (t_total as int) <= 1000) by (nonlinear_arith)
                    requires
                        0 <= t_own * 1000,
                        t_own <= t_total,
                        1 <= t_total,
                ;
            }
            let share: i64 = t_own * 1000 / t_total;
            proof {
                assert(0 <= shaft_abs * share <= 400_000_000_000_000int) by (nonlinear_arith)
                    requires
                        0 <= shaft_abs <= 400_000_000_000,
                        0 <= share <= 1000,
                ;
                assert(0 <= shaft_abs * share / 1000 <= 400_000_000_000int) by (nonlinear_arith)
                    requires
                        0 <= shaft_abs * share <= 400_000_000_000_000int,
                ;
            }
            let m1: i64 = shaft_abs * share / 1000;
            proof {
                assert(0 <= m1 * gearbox_milli <= 40_000_000_000_000_000int) by (nonlinear_arith)
                    requires
                        0 <= m1 <= 400_000_000_000,
                        0 <= gearbox_milli <= 100_000,
                ;
                assert(0 <= m1 * gearbox_milli / 1000 / 6000 <= MOTOR_SPEED_LIMIT_MRPM)
                    by (nonlinear_arith)
                    requires
                        0 <= m1 * gearbox_milli <= 40_000_000_000_000_000int,
                ;
            }
            let m2: i64 = m1 * gearbox_milli / 1000;
            let mag: i64 = m2 / 6000;
            proof {
                assert(share == t_own * 1000 / (t_total as int));
                assert(m1 == (shaft_abs as int) * (share as int) / 1000);
                assert(m2 == (m1 as int) * (gearbox_milli as int) / 1000);
                assert(mag == (((shaft_abs as int) * (share as int) / 1000) * (
                gearbox_milli as int) / 1000) / 6000);
                if negative {
                    let sh: int = -(shaft_abs as int);
                    if shaft_abs == 0 {
                        assert(sh * (share as int) == 0) by (nonlinear_arith)
                            requires
                                sh == 0,
                        ;
                        assert((shaft_abs as int) * (share as int) == 0) by (nonlinear_arith)
                            requires
                                shaft_abs == 0,
                        ;
                        assert(m1 == 0);
                        assert(m1 * (gearbox_milli as int) == 0) by (nonlinear_arith)
                            requires
                                m1 == 0,
                        ;
                        assert(m2 == 0);
                        assert(mag == 0);
                    } else {
                        assert((-sh) * (share as int) == (shaft_abs as int) * (share as int))
                            by (nonlinear_arith)
                            requires
                                sh == -(shaft_abs as int),
                        ;
                    }
                    assert(spec_motor_target(
                        sh,
                        t_own as int,
                        t_total as int,
                        gearbox_milli as int,
                    ) == -(mag as int));
                } else {
                    assert(spec_motor_target(
                        shaft_abs as int,
                        t_own as int,
                        t_total as int,
                        gearbox_milli as int,
                    ) == mag as int);
                }
            }
            if negative {
                -mag
            } else {
                mag
            }
        }
    }

    pub fn left_motor(&self) -> (r: &FlapSlatHydraulicMotor)
        ensures
            r == self.left_motor,
    {
        &self.left_motor
    }

    pub fn right_motor(&self) -> (r: &FlapSlatHydraulicMotor)
        ensures
            r == self.right_motor,
    {
        &self.right_motor
    }

    pub fn reset_left_accumulators(&mut self)
        ensures
            final(self).left_motor.total_volume_to_actuator_ugal == 0,
            final(self).left_motor.total_volume_returned_to_reservoir_ugal == 0,
            *final(self) == (FlapSlatAssembly { left_motor: final(self).left_motor, ..*old(self) }),
            final(self).left_motor == (FlapSlatHydraulicMotor {
                total_volume_to_actuator_ugal: 0,
                total_volume_returned_to_reservoir_ugal: 0,
                ..old(self).left_motor
            }),
    {
        self.left_motor.reset_accumulators();
    }

    pub fn reset_right_accumulators(&mut self)
        ensures
            final(self).right_motor.total_volume_to_actuator_ugal == 0,
            final(self).right_motor.total_volume_returned_to_reservoir_ugal == 0,
            *final(self) == (FlapSlatAssembly { right_motor: final(self).right_motor, ..*old(self) }),
            final(self).right_motor == (FlapSlatHydraulicMotor {
                total_volume_to_actuator_ugal: 0,
                total_volume_returned_to_reservoir_ugal: 0,
                ..old(self).right_motor
            }),
    {
        self.right_motor.reset_accumulators();
    }
}


/// One step of the concrete decay-bound chain: a run of `a + b`
/// milliseconds decays at least as much as the product of the two
/// partial bounds allows.
proof fn lemma_decay_chain_step(a: nat, b: nat, ba: int, bb: int)
    requires
        b >= 1,
        0 <= ba,
        0 <= bb,
        pow_frac(MOTOR_DECAY_PER_MS as int, a) <= ba,
        pow_frac(MOTOR_DECAY_PER_MS as int, b) <= bb,
    ensures
        pow_frac(MOTOR_DECAY_PER_MS as int, (a + b) as nat) * (FRAC_ONE as int) <= ba * (bb + b),
{
    let r = MOTOR_DECAY_PER_MS as int;
    lemma_pow_frac_add_bound(r, a, b);
    lemma_pow_frac_bounds(r, a);
    lemma_pow_frac_bounds(r, b);
    let pa = pow_frac(r, a);
    let pb = pow_frac(r, b);
    assert(pa * (pb + b) <= ba * (bb + b)) by (nonlinear_arith)
        requires
            0 <= pa <= ba,
            0 <= pb + b <= bb + b,
    ;
}

/// Concrete bounds on the motor's retained fraction: after 16 ms at most
/// 0.969 of a speed error remains, and after 2496 ms (just under five
/// time constants) less than one percent.
pub proof fn lemma_motor_decay_concrete()
    ensures
        pow_frac(MOTOR_DECAY_PER_MS as int, 16) <= 4_159_704_112,
        pow_frac(MOTOR_DECAY_PER_MS as int, 2496) <= 29_171_847,
{
    let r = MOTOR_DECAY_PER_MS as int;
    let u = FRAC_ONE as int;
    assert(pow_frac(r, 0) == u);
    assert(pow_frac(r, 1) == u * r / u);
    assert(u * r / u == r) by (nonlinear_arith)
        requires
            u >= 1,
            0 <= r,
    ;
    lemma_decay_chain_step(1, 1, 4_286_385_945, 4_286_385_945);
    assert(pow_frac(r, 2) <= 4_277_821_740);
    lemma_decay_chain_step(2, 2, 4_277_821_740, 4_277_821_740);
    assert(pow_frac(r, 4) <= 4_260_744_631);
    lemma_decay_chain_step(4, 4, 4_260_744_631, 4_260_744_631);
    assert(pow_frac(r, 8) <= 4_226_794_659);
    lemma_decay_chain_step(8, 8, 4_226_794_659, 4_226_794_659);
    assert(pow_frac(r, 16) <= 4_159_704_112);
    lemma_decay_chain_step(16, 16, 4_159_704_112, 4_159_704_112);
    assert(pow_frac(r, 32) <= 4_028_700_842);
    lemma_decay_chain_step(32, 32, 4_028_700_842, 4_028_700_842);
    assert(pow_frac(r, 64) <= 3_778_941_604);
    lemma_decay_chain_step(64, 64, 3_778_941_604, 3_778_941_604);
    assert(pow_frac(r, 128) <= 3_324_914_697);
    lemma_decay_chain_step(128, 128, 3_324_914_697, 3_324_914_697);
    assert(pow_frac(r, 256) <= 2_573_956_308);
    lemma_decay_chain_step(256, 256, 2_573_956_308, 2_573_956_308);
    assert(pow_frac(r, 512) <= 1_542_561_625);
    lemma_decay_chain_step(512, 512, 1_542_561_625, 1_542_561_625);
    assert(pow_frac(r, 1024) <= 554_019_854);
    lemma_decay_chain_step(1024, 1024, 554_019_854, 554_019_854);
    assert(pow_frac(r, 2048) <= 71_464_703);
    lemma_decay_chain_step(2048, 256, 71_464_703, 2_573_956_308);
    assert(pow_frac(r, 2304) <= 42_828_508);
    lemma_decay_chain_step(2304, 128, 42_828_508, 3_324_914_697);
    assert(pow_frac(r, 2432) <= 33_155_349);
    lemma_decay_chain_step(2432, 64, 33_155_349, 3_778_941_604);
    assert(pow_frac(r, 2496) <= 29_171_847);
}

/// Once the cumulative decay time reaches 2496 ms, one hundred times the
/// exact decay power is below one: `100 * r^t <= FRAC_ONE^t`.
proof fn lemma_motor_power_small(t: nat)
    requires
        t >= 2496,
    ensures
        100 * pow(MOTOR_DECAY_PER_MS as int, t) <= pow(FRAC_ONE as int, t),
{
    let r = MOTOR_DECAY_PER_MS as int;
    let u = FRAC_ONE as int;
    lemma_motor_decay_concrete();
    lemma_pow_frac_additive_error(r, 2496);
    lemma_pow_frac_bounds(r, 2496);
    let p2496 = pow_frac(r, 2496);
    let pu2495 = pow(u, 2495);
    let pu2496 = pow(u, 2496);
    vstd::arithmetic::power::lemma_pow_positive(u, 2495);
    vstd::arithmetic::power::lemma_pow_adds(u, 1, 2495);
    vstd::arithmetic::power::lemma_pow1(u);
    assert(pu2496 == u * pu2495);
    // 100 * pow(r, 2496) <= 100 * (p2496 + 2496) * pu2495 <= u * pu2495
    assert(100 * pow(r, 2496) <= (100 * (p2496 + 2496)) * pu2495) by (nonlinear_arith)
        requires
            pow(r, 2496) <= (p2496 + 2496) * pu2495,
            0 <= pu2495,
    ;
    assert((100 * (p2496 + 2496)) * pu2495 <= u * pu2495) by (nonlinear_arith)
        requires
            0 <= 100 * (p2496 + 2496) <= u,
            0 <= pu2495,
    ;
    let rest = (t - 2496) as nat;
    vstd::arithmetic::power::lemma_pow_adds(r, 2496, rest);
    vstd::arithmetic::power::lemma_pow_adds(u, 2496, rest);
    lemma_pow_base_monotone(r, u, rest);
    let pr_rest = pow(r, rest);
    let pu_rest = pow(u, rest);
    assert(pr_rest >= 0) by {
        vstd::arithmetic::power::lemma_pow_positive(r, rest);
    }
    assert(100 * (pow(r, 2496) * pr_rest) <= (100 * pow(r, 2496)) * pr_rest) by (nonlinear_arith);
    assert((100 * pow(r, 2496)) * pr_rest <= pu2496 * pr_rest) by (nonlinear_arith)
        requires
            100 * pow(r, 2496) <= pu2496,
            0 <= pr_rest,
    ;
    assert(pu2496 * pr_rest <= pu2496 * pu_rest) by (nonlinear_arith)
        requires
            0 <= pr_rest <= pu_rest,
            0 <= pu2496,
    ;
}

/// Sum of a sequence of tick durations.
pub open spec fn seq_sum(dts: Seq<int>) -> int
    decreases dts.len(),
{
    if dts.len() == 0 {
        0
    } else {
        dts[0] + seq_sum(dts.drop_first())
    }
}

/// Motor speed after filter ticks at a constant requested speed, one per
/// element of `dts`.
pub open spec fn motor_speed_iter(speed: int, target: int, dts: Seq<int>) -> int
    decreases dts.len(),
{
    if dts.len() == 0 {
        speed
    } else {
        motor_speed_iter(
            motor_speed_after(speed, target, pow_frac(MOTOR_DECAY_PER_MS as int, dts[0] as nat)),
            target,
            dts.drop_first(),
        )
    }
}


/// A sum of non-negative tick durations is non-negative, and bounded
/// below by its first element.
pub proof fn lemma_seq_sum_nonneg(dts: Seq<int>)
    requires
        forall|i: int| 0 <= i < dts.len() ==> #[trigger] dts[i] >= 0,
    ensures
        seq_sum(dts) >= 0,
        dts.len() > 0 ==> seq_sum(dts) >= dts[0],
    decreases dts.len(),
{
    if dts.len() > 0 {
        assert(forall|i: int|
            0 <= i < dts.drop_first().len() ==> #[trigger] dts.drop_first()[i] >= 0);
        lemma_seq_sum_nonneg(dts.drop_first());
    }
}

/// Spin-up contraction: with ticks of at least 16 ms toward a requested
/// speed of at least 2000 RPM, the speed never overshoots, never snaps
/// back to zero after the first tick, and the remaining error shrinks at
/// least as fast as the exact exponential decay.
proof fn lemma_motor_iter_err(speed: int, target: int, dts: Seq<int>)
    requires
        0 <= speed <= target,
        target >= 100 * MOTOR_SNAP_THRESHOLD_MRPM,
        forall|i: int| 0 <= i < dts.len() ==> 16 <= #[trigger] dts[i] <= MAX_TICK_MS,
    ensures
        0 <= motor_speed_iter(speed, target, dts) <= target,
        (target - motor_speed_iter(speed, target, dts)) * pow(
            FRAC_ONE as int,
            seq_sum(dts) as nat,
        ) <= (target - speed) * pow(MOTOR_DECAY_PER_MS as int, seq_sum(dts) as nat),
        seq_sum(dts) >= 0,
    decreases dts.len(),
{
    let r = MOTOR_DECAY_PER_MS as int;
    let u = FRAC_ONE as int;
    vstd::arithmetic::power::lemma_pow0(r);
    vstd::arithmetic::power::lemma_pow0(u);
    if dts.len() == 0 {
    } else {
        let d = dts[0] as nat;
        assert(16 <= dts[0] <= MAX_TICK_MS);
        let pf_d = pow_frac(r, d);
        lemma_pow_frac_bounds(r, d);
        lemma_pow_frac_decreasing(r, 16, d);
        lemma_motor_decay_concrete();
        assert(pf_d <= 4_159_704_112);
        let err = target - speed;
        let shrunk = err * pf_d / u;
        // the filtered speed does not fall below the snap threshold
        assert(err * pf_d <= target * 4_159_704_112) by (nonlinear_arith)
            requires
                0 <= err <= target,
                0 <= pf_d <= 4_159_704_112,
        ;
        assert(shrunk * u <= err * pf_d) by (nonlinear_arith)
            requires
                shrunk == err * pf_d / u,
                0 <= err * pf_d,
                u >= 1,
        ;
        assert(err * pf_d <= err * u) by (nonlinear_arith)
            requires
                0 <= err,
                pf_d <= u,
        ;
        assert(0 <= shrunk <= err) by (nonlinear_arith)
            requires
                shrunk == err * pf_d / u,
                0 <= err * pf_d,
                err * pf_d <= err * u,
                u >= 1,
        ;
        let filtered = target - shrunk;
        assert(filtered * u >= MOTOR_SNAP_THRESHOLD_MRPM * u) by (nonlinear_arith)
            requires
                filtered == target - shrunk,
                shrunk * u <= err * pf_d,
                err * pf_d <= target * 4_159_704_112,
                target >= 100 * MOTOR_SNAP_THRESHOLD_MRPM,
                MOTOR_SNAP_THRESHOLD_MRPM == 20_000,
                u == 0x1_0000_0000,
        ;
        assert(filtered >= MOTOR_SNAP_THRESHOLD_MRPM) by (nonlinear_arith)
            requires
                filtered * u >= MOTOR_SNAP_THRESHOLD_MRPM * u,
                u >= 1,
        ;
        assert(motor_lag(speed, target, pf_d) == filtered);
        let s1 = motor_speed_after(speed, target, pf_d);
        assert(s1 == filtered);
        // error after one tick, bounded through the exact power
        assert(pow_frac(r, d) * pow(u, (d - 1) as nat) <= pow(r, d) * 1) by {
            crate::decay::lemma_pow_frac_shift(r, 0, d);
            assert(pow_frac(r, 0) == u);
            vstd::arithmetic::power::lemma_pow_adds(u, 1, (d - 1) as nat);
            vstd::arithmetic::power::lemma_pow1(u);
            vstd::arithmetic::power::lemma_pow_positive(u, (d - 1) as nat);
            let pud1 = pow(u, (d - 1) as nat);
            assert(pow(u, d) == u * pud1);
            assert(pow_frac(r, d) * (u * pud1) <= u * pow(r, d));
            assert(pow_frac(r, d) * (u * pud1) == (pow_frac(r, d) * pud1) * u) by (nonlinear_arith);
            assert((pow_frac(r, d) * pud1) * u <= pow(r, d) * u) by (nonlinear_arith)
                requires
                    (pow_frac(r, d) * pud1) * u <= u * pow(r, d),
            ;
            assert(pow_frac(r, d) * pud1 <= pow(r, d)) by (nonlinear_arith)
                requires
                    (pow_frac(r, d) * pud1) * u <= pow(r, d) * u,
                    u >= 1,
            ;
        }
        let err1 = target - s1;
        assert(err1 == shrunk);
        // err1 * pow(u, d) <= err * pow(r, d)
        let pud1 = pow(u, (d - 1) as nat);
        vstd::arithmetic::power::lemma_pow_positive(u, (d - 1) as nat);
        vstd::arithmetic::power::lemma_pow_adds(u, 1, (d - 1) as nat);
        vstd::arithmetic::power::lemma_pow1(u);
        assert(pow(u, d) == u * pud1);
        assert(err1 * (u * pud1) == (err1 * u) * pud1) by (nonlinear_arith);
        assert((err1 * u) * pud1 <= (err * pf_d) * pud1) by (nonlinear_arith)
            requires
                err1 * u <= err * pf_d,
                0 <= pud1,
        ;
        assert((err * pf_d) * pud1 == err * (pf_d * pud1)) by (nonlinear_arith);
        assert(err * (pf_d * pud1) <= err * pow(r, d)) by (nonlinear_arith)
            requires
                0 <= err,
                pf_d * pud1 <= pow(r, d),
        ;
        // recurse on the rest
        lemma_motor_iter_err(s1, target, dts.drop_first());
        let rest = dts.drop_first();
        let t_rest = seq_sum(rest) as nat;
        let s_fin = motor_speed_iter(s1, target, rest);
        assert(motor_speed_iter(speed, target, dts) == s_fin);
        assert(seq_sum(dts) == dts[0] + seq_sum(rest));
        let t_all = seq_sum(dts) as nat;
        let err_fin = target - s_fin;
        // err_fin * pow(u, t_all) <= err * pow(r, t_all)
        vstd::arithmetic::power::lemma_pow_adds(u, d, t_rest);
        vstd::arithmetic::power::lemma_pow_adds(r, d, t_rest);
        vstd::arithmetic::power::lemma_pow_positive(u, d);
        vstd::arithmetic::power::lemma_pow_positive(u, t_rest);
        let prd = pow(r, d);
        let prt = pow(r, t_rest);
        let pud = pow(u, d);
        let put = pow(u, t_rest);
        assert(prd >= 0) by {
            vstd::arithmetic::power::lemma_pow_positive(r, d);
        }
        assert(prt >= 0) by {
            vstd::arithmetic::power::lemma_pow_positive(r, t_rest);
        }
        assert(err_fin * (pud * put) == (err_fin * put) * pud) by (nonlinear_arith);
        assert((err_fin * put) * pud <= (err1 * prt) * pud) by (nonlinear_arith)
            requires
                err_fin * put <= err1 * prt,
                0 <= pud,
        ;
        assert((err1 * prt) * pud == (err1 * pud) * prt) by (nonlinear_arith);
        assert((err1 * pud) * prt <= (err * prd) * prt) by (nonlinear_arith)
            requires
                err1 * pud <= err * prd,
                0 <= prt,
        ;
        assert((err * prd) * prt == err * (prd * prt)) by (nonlinear_arith);
    }
}

/// Motor spin-up asymptote: a requested speed of at least 2000 RPM held
/// constant over simulation ticks of at least 16 ms each, for a total of
/// at least five spool-up time constants (2.5 s), brings the motor speed
/// within one percent of the requested value, with no overshoot.
pub proof fn lemma_motor_spin_up(speed: int, target: int, dts: Seq<int>)
    requires
        0 <= speed <= target,
        target >= 100 * MOTOR_SNAP_THRESHOLD_MRPM,
        forall|i: int| 0 <= i < dts.len() ==> 16 <= #[trigger] dts[i] <= MAX_TICK_MS,
        seq_sum(dts) >= 2500,
    ensures
        target - target / 100 <= motor_speed_iter(speed, target, dts) <= target,
{
    let r = MOTOR_DECAY_PER_MS as int;
    let u = FRAC_ONE as int;
    lemma_motor_iter_err(speed, target, dts);
    let t = seq_sum(dts) as nat;
    lemma_motor_power_small(t);
    let s_fin = motor_speed_iter(speed, target, dts);
    let err_fin = target - s_fin;
    let err0 = target - speed;
    let pu = pow(u, t);
    let pr = pow(r, t);
    vstd::arithmetic::power::lemma_pow_positive(u, t);
    assert(pr >= 0) by {
        vstd::arithmetic::power::lemma_pow_positive(r, t);
    }
    assert(100 * (err_fin * pu) <= 100 * (err0 * pr)) by (nonlinear_arith)
        requires
            err_fin * pu <= err0 * pr,
    ;
    assert(100 * (err0 * pr) == err0 * (100 * pr)) by (nonlinear_arith);
    assert(err0 * (100 * pr) <= err0 * pu) by (nonlinear_arith)
        requires
            0 <= err0,
            100 * pr <= pu,
    ;
    assert(err0 * pu <= target * pu) by (nonlinear_arith)
        requires
            err0 <= target,
            0 <= pu,
    ;
    assert(100 * (err_fin * pu) == (100 * err_fin) * pu) by (nonlinear_arith);
    assert(100 * err_fin <= target) by (nonlinear_arith)
        requires
            (100 * err_fin) * pu <= target * pu,
            pu >= 1,
    ;
}


/// Servo position and direction after `n` ticks at a constant request,
/// pressures and tick length, for an assembly with the given mechanical
/// range and speed configuration.
pub open spec fn servo_iter(
    max_pos: int,
    full_speed: int,
    approach_limit: int,
    pos: int,
    speed: int,
    req: int,
    pl: int,
    pr: int,
    dt_ms: int,
    n: nat,
) -> (int, int)
    decreases n,
{
    if n == 0 {
        (pos, speed)
    } else {
        let prev = servo_iter(max_pos, full_speed, approach_limit, pos, speed, req, pl, pr, dt_ms, (
        n - 1) as nat);
        let stepped = spec_servo_step(
            max_pos,
            full_speed,
            approach_limit,
            prev.0,
            prev.1,
            req,
            pl,
            pr,
            dt_ms,
        );
        (stepped.0, stepped.1)
    }
}

/// Below the minimum combined brake-release pressure the servo does not
/// move: the position feedback is unchanged across any number of ticks.
pub proof fn lemma_servo_holds_below_pressure_threshold(
    max_pos: int,
    full_speed: int,
    approach_limit: int,
    pos: int,
    speed: int,
    req: int,
    pl: int,
    pr: int,
    dt_ms: int,
    n: nat,
)
    requires
        0 <= pos <= max_pos,
        pl + pr <= BRAKE_PRESSURE_MIN_COMBINED_MPSI,
    ensures
        servo_iter(max_pos, full_speed, approach_limit, pos, speed, req, pl, pr, dt_ms, n).0 == pos,
    decreases n,
{
    if n > 0 {
        lemma_servo_holds_below_pressure_threshold(
            max_pos,
            full_speed,
            approach_limit,
            pos,
            speed,
            req,
            pl,
            pr,
            dt_ms,
            (n - 1) as nat,
        );
        let prev = servo_iter(max_pos, full_speed, approach_limit, pos, speed, req, pl, pr, dt_ms, (
        n - 1) as nat);
        let req_c = clamp(req, 0, max_pos);
        let cms = spec_current_max_speed(full_speed, approach_limit, prev.0, prev.1, req_c, pl, pr);
        assert(cms == 0);
        assert(cms * dt_ms == 0) by (nonlinear_arith)
            requires
                cms == 0,
        ;
    }
}

/// One pressurised servo tick moves the position strictly toward the
/// clamped request without overshooting it, and holds it exactly once
/// reached.
pub proof fn lemma_servo_step_approaches(
    max_pos: int,
    full_speed: int,
    approach_limit: int,
    pos: int,
    speed: int,
    req: int,
    pl: int,
    pr: int,
    dt_ms: int,
)
    requires
        0 <= pos <= max_pos,
        pl + pr > BRAKE_PRESSURE_MIN_COMBINED_MPSI,
        0 <= full_speed,
        0 <= approach_limit,
        full_speed * (pl + pr) / (MAX_COMBINED_PRESSURE_MPSI as int) * dt_ms >= 1000,
        approach_limit * dt_ms >= 1000,
        dt_ms >= 1,
    ensures
        ({
            let req_c = clamp(req, 0, max_pos);
            let stepped = spec_servo_step(
                max_pos,
                full_speed,
                approach_limit,
                pos,
                speed,
                req,
                pl,
                pr,
                dt_ms,
            );
            &&& (req_c > pos ==> pos + 1 <= stepped.0 <= req_c)
            &&& (req_c < pos ==> req_c <= stepped.0 <= pos - 1)
            &&& (req_c == pos ==> stepped.0 == pos && stepped.1 == 0)
            &&& 0 <= stepped.0 <= max_pos
        }),
{
    let req_c = clamp(req, 0, max_pos);
    let scaled = full_speed * (pl + pr) / (MAX_COMBINED_PRESSURE_MPSI as int);
    let cms = spec_current_max_speed(full_speed, approach_limit, pos, speed, req_c, pl, pr);
    assert(full_speed * (pl + pr) >= 0) by (nonlinear_arith)
        requires
            0 <= full_speed,
            pl + pr > 0,
    ;
    assert(scaled >= 0) by (nonlinear_arith)
        requires
            full_speed * (pl + pr) >= 0,
            scaled == full_speed * (pl + pr) / (MAX_COMBINED_PRESSURE_MPSI as int),
    ;
    assert(cms == scaled || cms == approach_limit);
    assert(cms * dt_ms >= 1000) by {
        if cms == scaled {
        } else {
            assert(cms == approach_limit);
        }
    }
    let step = cms * dt_ms / 1000;
    assert(step >= 1) by (nonlinear_arith)
        requires
            step == cms * dt_ms / 1000,
            cms * dt_ms >= 1000,
    ;
    assert(cms >= 1) by (nonlinear_arith)
        requires
            cms * dt_ms >= 1000,
            dt_ms >= 1,
            cms == scaled || cms == approach_limit,
            scaled >= 0,
            approach_limit >= 0,
    ;
}

/// After `n` pressurised ticks the remaining distance to the clamped
/// request has shrunk by at least `n`, until it closes entirely.
proof fn lemma_servo_iter_gap_shrinks(
    max_pos: int,
    full_speed: int,
    approach_limit: int,
    pos: int,
    speed: int,
    req: int,
    pl: int,
    pr: int,
    dt_ms: int,
    n: nat,
)
    requires
        0 <= pos <= max_pos,
        pl + pr > BRAKE_PRESSURE_MIN_COMBINED_MPSI,
        0 <= full_speed,
        0 <= approach_limit,
        full_speed * (pl + pr) / (MAX_COMBINED_PRESSURE_MPSI as int) * dt_ms >= 1000,
        approach_limit * dt_ms >= 1000,
        dt_ms >= 1,
    ensures
        ({
            let req_c = clamp(req, 0, max_pos);
            let it = servo_iter(
                max_pos,
                full_speed,
                approach_limit,
                pos,
                speed,
                req,
                pl,
                pr,
                dt_ms,
                n,
            );
            let cur_gap = if it.0 >= req_c {
                it.0 - req_c
            } else {
                req_c - it.0
            };
            let init_gap = if pos >= req_c {
                pos - req_c
            } else {
                req_c - pos
            };
            &&& 0 <= it.0 <= max_pos
            &&& (cur_gap <= init_gap - n || cur_gap == 0)
            &&& (cur_gap == 0 ==> it.0 == req_c)
        }),
    decreases n,
{
    if n > 0 {
        lemma_servo_iter_gap_shrinks(
            max_pos,
            full_speed,
            approach_limit,
            pos,
            speed,
            req,
            pl,
            pr,
            dt_ms,
            (n - 1) as nat,
        );
        let prev = servo_iter(max_pos, full_speed, approach_limit, pos, speed, req, pl, pr, dt_ms, (
        n - 1) as nat);
        lemma_servo_step_approaches(
            max_pos,
            full_speed,
            approach_limit,
            prev.0,
            prev.1,
            req,
            pl,
            pr,
            dt_ms,
        );
    }
}

/// Monotonic approach: at any fixed request and fixed pressures above the
/// minimum-movement threshold, with ticks long enough to move at least
/// one micro-degree, the position strictly approaches the clamped request
/// each tick and, once the tick count reaches the initial gap, rests
/// exactly on it.
pub proof fn lemma_servo_reaches_request(
    max_pos: int,
    full_speed: int,
    approach_limit: int,
    pos: int,
    speed: int,
    req: int,
    pl: int,
    pr: int,
    dt_ms: int,
    n: nat,
)
    requires
        0 <= pos <= max_pos,
        pl + pr > BRAKE_PRESSURE_MIN_COMBINED_MPSI,
        0 <= full_speed,
        0 <= approach_limit,
        full_speed * (pl + pr) / (MAX_COMBINED_PRESSURE_MPSI as int) * dt_ms >= 1000,
        approach_limit * dt_ms >= 1000,
        dt_ms >= 1,
        n >= (if pos >= clamp(req, 0, max_pos) {
            pos - clamp(req, 0, max_pos)
        } else {
            clamp(req, 0, max_pos) - pos
        }),
    ensures
        servo_iter(max_pos, full_speed, approach_limit, pos, speed, req, pl, pr, dt_ms, n).0
            == clamp(req, 0, max_pos),
{
    lemma_servo_iter_gap_shrinks(
        max_pos,
        full_speed,
        approach_limit,
        pos,
        speed,
        req,
        pl,
        pr,
        dt_ms,
        n,
    );
}

} // verus!
