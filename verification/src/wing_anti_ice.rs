//! Wing anti-ice: two symmetric chains of supply valve, heated consumer
//! and exhaust, each driven by a push-button controller with a timed
//! ground self-test and a pressure-regulating feedback loop.

use crate::container::clamp;
use crate::container::PneumaticPipe;
use crate::container::PRESSURE_MAX_MPSI;
use crate::container::TEMP_MAX_MC;
use crate::container::TEMP_MIN_MC;
use crate::decay::MAX_TICK_MS;
use crate::flap_slat::lemma_seq_sum_nonneg;
use crate::flap_slat::seq_sum;
use crate::pid::pid_i_term;
use crate::pid::pid_output;
use crate::pid::PidController;
use crate::valve::ceil_div;
use crate::valve::exhaust_step;
use crate::valve::transfer_decay_complement;
use crate::valve::valve_move_with_temp;
use crate::valve::DefaultValve;
use crate::valve::StaticExhaust;
use vstd::prelude::*;

verus! {

/// The ground self-test runs for exactly this long (30 s).
pub const WAI_TEST_TIME_MS: u64 = 30_000;

/// Pressure setpoint the valve regulates the consumer toward (22 psi).
pub const WAI_PRESSURE_SETPOINT_MPSI: i64 = 22_000;

/// Position of the wing anti-ice push button.
#[derive(Clone, Copy, Debug, PartialEq, Eq, Structural)]
pub enum WingAntiIcePushButtonMode {
    Off,
    On,
}

/// An ephemeral per-tick signal: the fraction of the valve that should be
/// open, in permille.
pub struct WingAntiIceValveSignal {
    pub target_open_amount: u16,
}

impl WingAntiIceValveSignal {
    pub open spec fn wf(self) -> bool {
        self.target_open_amount <= 1000
    }

    pub fn new(target_open_amount_pm: u16) -> (r: Self)
        requires
            target_open_amount_pm <= 1000,
        ensures
            r.wf(),
            r.target_open_amount == target_open_amount_pm,
    {
        WingAntiIceValveSignal { target_open_amount: target_open_amount_pm }
    }

    /// A fully-open signal.
    pub fn new_open() -> (r: Self)
        ensures
            r.wf(),
            r.target_open_amount == 1000,
    {
        Self::new(1000)
    }

    /// A fully-closed signal.
    pub fn new_closed() -> (r: Self)
        ensures
            r.wf(),
            r.target_open_amount == 0,
    {
        Self::new(0)
    }

    pub fn target_open_amount(&self) -> (r: u16)
        ensures
            r == self.target_open_amount,
    {
        self.target_open_amount
    }
}

/// The valve controller: button position, ground/air state, the capped
/// self-test timer with its completion flag, the on/off indication, and
/// the pressure regulator whose output feeds the valve signal.
pub struct WingAntiIceValveController {
    pub wing_anti_ice_button_pos: WingAntiIcePushButtonMode,
    pub valve_pid: PidController,
    pub valve_pid_output: i64,
    pub is_on_ground: bool,
    pub system_test_timer_ms: u64,
    pub system_test_done: bool,
    pub controller_signals_on: bool,
    pub supplier_pressurized: bool,
}

/// Timer after one tick: it advances by the tick length only while the
/// button is on, the aircraft on ground with the test unfinished and the
/// supply pressurized, and is capped at the test duration; it resets when
/// airborne.
pub open spec fn spec_timer_after(
    c: WingAntiIceValveController,
    dt_ms: int,
    mode: WingAntiIcePushButtonMode,
    pressurized: bool,
) -> int {
    let advanced = if mode == WingAntiIcePushButtonMode::On && c.is_on_ground
        && !c.system_test_done && pressurized {
        if c.system_test_timer_ms + dt_ms >= WAI_TEST_TIME_MS {
            WAI_TEST_TIME_MS as int
        } else {
            c.system_test_timer_ms + dt_ms
        }
    } else {
        c.system_test_timer_ms as int
    };
    if !c.is_on_ground && advanced > 0 {
        0
    } else {
        advanced
    }
}

/// Test-done flag after one tick: set when the capped timer reaches the
/// test duration on ground; cleared when airborne with a started timer.
pub open spec fn spec_test_done_after(
    c: WingAntiIceValveController,
    dt_ms: int,
    mode: WingAntiIcePushButtonMode,
    pressurized: bool,
) -> bool {
    let in_test = mode == WingAntiIcePushButtonMode::On && c.is_on_ground && !c.system_test_done;
    let done = if in_test {
        (if pressurized {
            c.system_test_timer_ms + dt_ms >= WAI_TEST_TIME_MS
        } else {
            c.system_test_timer_ms >= WAI_TEST_TIME_MS
        })
    } else {
        c.system_test_done
    };
    if !c.is_on_ground && c.system_test_timer_ms > 0 {
        false
    } else {
        done
    }
}

/// On/off indication after one tick: off when the button is off or the
/// ground test has just finished; on while the test runs or whenever the
/// aircraft is airborne with the button on.
pub open spec fn spec_signals_on_after(
    c: WingAntiIceValveController,
    dt_ms: int,
    mode: WingAntiIcePushButtonMode,
    pressurized: bool,
) -> bool {
    if mode == WingAntiIcePushButtonMode::Off {
        false
    } else if c.is_on_ground && !c.system_test_done {
        !(if pressurized {
            c.system_test_timer_ms + dt_ms >= WAI_TEST_TIME_MS
        } else {
            c.system_test_timer_ms >= WAI_TEST_TIME_MS
        })
    } else if !c.is_on_ground {
        true
    } else {
        c.controller_signals_on
    }
}

/// The whole controller after one tick.
pub open spec fn spec_controller_after(
    c: WingAntiIceValveController,
    dt_ms: int,
    mode: WingAntiIcePushButtonMode,
    pressurized: bool,
) -> WingAntiIceValveController {
    WingAntiIceValveController {
        wing_anti_ice_button_pos: mode,
        supplier_pressurized: pressurized,
        system_test_timer_ms: spec_timer_after(c, dt_ms, mode, pressurized) as u64,
        system_test_done: spec_test_done_after(c, dt_ms, mode, pressurized),
        controller_signals_on: spec_signals_on_after(c, dt_ms, mode, pressurized),
        ..c
    }
}

/// The valve open amount this controller signals: closed when the button
/// is off or the valve cannot be driven, else the regulator output
/// clamped to a valid fraction.
pub open spec fn spec_signal_open_amount(c: WingAntiIceValveController) -> int {
    match c.wing_anti_ice_button_pos {
        WingAntiIcePushButtonMode::Off => 0,
        WingAntiIcePushButtonMode::On => {
            if c.supplier_pressurized && (!c.is_on_ground || !c.system_test_done) {
                clamp(c.valve_pid_output as int, 0, 1000)
            } else {
                0
            }
        },
    }
}

impl WingAntiIceValveController {
    pub open spec fn wf(self) -> bool {
        &&& self.valve_pid.wf()
        &&& -1_000_000 <= self.valve_pid_output <= 1_000_000
        &&& self.system_test_timer_ms <= WAI_TEST_TIME_MS
        &&& (self.system_test_done ==> self.system_test_timer_ms == WAI_TEST_TIME_MS)
    }

    /// A controller in the powered-down state: button off, on ground,
    /// timer at zero, regulating toward the anti-ice pressure setpoint
    /// with proportional and derivative gains of one half.
    pub fn new() -> (r: Self)
        ensures
            r.wf(),
            r.wing_anti_ice_button_pos == WingAntiIcePushButtonMode::Off,
            r.valve_pid_output == 0,
            r.is_on_ground == true,
            r.system_test_timer_ms == 0,
            r.system_test_done == false,
            r.controller_signals_on == false,
            r.supplier_pressurized == false,
            r.valve_pid.setpoint == WAI_PRESSURE_SETPOINT_MPSI,
            r.valve_pid.integral_term == 0,
            r.valve_pid.prev_measurement is None,
            r.valve_pid.kp_milli == 500,
            r.valve_pid.ki_milli == 0,
            r.valve_pid.kd_milli == 500,
            r.valve_pid.p_limit == 1000,
            r.valve_pid.i_limit == 1000,
            r.valve_pid.d_limit == 1000,
            r.valve_pid.output_limit == 1000,
    {
        WingAntiIceValveController {
            wing_anti_ice_button_pos: WingAntiIcePushButtonMode::Off,
            valve_pid: PidController::new(
                500,
                0,
                500,
                1000,
                1000,
                1000,
                1000,
                WAI_PRESSURE_SETPOINT_MPSI,
            ),
            valve_pid_output: 0,
            is_on_ground: true,
            system_test_timer_ms: 0,
            system_test_done: false,
            controller_signals_on: false,
            supplier_pressurized: false,
        }
    }

    pub fn controller_signals_on(&self) -> (r: bool)
        ensures
            r == self.controller_signals_on,
    {
        self.controller_signals_on
    }

    /// Takes the on-ground flag read at the simulation boundary.
    pub fn set_on_ground(&mut self, on_ground: bool)
        ensures
            *final(self) == (WingAntiIceValveController { is_on_ground: on_ground, ..*old(self) }),
    {
        self.is_on_ground = on_ground;
    }

    /// One controller tick on the sampled button position and supply
    /// state.
    pub fn update(
        &mut self,
        dt_ms: u64,
        wing_anti_ice_button_pos: WingAntiIcePushButtonMode,
        supplier_pressurized: bool,
    )
        requires
            old(self).wf(),
            dt_ms <= MAX_TICK_MS,
        ensures
            final(self).wf(),
            *final(self) == spec_controller_after(
                *old(self),
                dt_ms as int,
                wing_anti_ice_button_pos,
                supplier_pressurized,
            ),
    {
        self.wing_anti_ice_button_pos = wing_anti_ice_button_pos;
        self.supplier_pressurized = supplier_pressurized;

        if self.wing_anti_ice_button_pos == WingAntiIcePushButtonMode::On {
            if self.is_on_ground && self.system_test_done == false {
                if self.supplier_pressurized {
                    if self.system_test_timer_ms + dt_ms >= WAI_TEST_TIME_MS {
                        self.system_test_timer_ms = WAI_TEST_TIME_MS;
                    } else {
                        self.system_test_timer_ms = self.system_test_timer_ms + dt_ms;
                    }
                }
                if self.system_test_timer_ms == WAI_TEST_TIME_MS {
                    self.system_test_done = true;
                    self.controller_signals_on = false;
                } else {
                    self.controller_signals_on = true;
                }
            } else if self.is_on_ground == false {
                self.controller_signals_on = true;
            }
        } else {
            self.controller_signals_on = false;
        }

        // Once airborne the timer resets and the test may run again at the
        // next landing.
        if self.is_on_ground == false && self.system_test_timer_ms > 0 {
            self.system_test_timer_ms = 0;
            self.system_test_done = false;
        }
    }

    pub fn get_timer(&self) -> (r: u64)
        ensures
            r == self.system_test_timer_ms,
    {
        self.system_test_timer_ms
    }

    /// The signal consumed by the valve this tick. There is always one.
    pub fn signal(&self) -> (r: Option<WingAntiIceValveSignal>)
        requires
            self.wf(),
        ensures
            r is Some,
            r matches Some(s) ==> s.wf() && s.target_open_amount == spec_signal_open_amount(*self),
    {
        match self.wing_anti_ice_button_pos {
            WingAntiIcePushButtonMode::Off => Some(WingAntiIceValveSignal::new_closed()),
            WingAntiIcePushButtonMode::On => {
                if self.supplier_pressurized && (!self.is_on_ground || (self.is_on_ground
                    && !self.system_test_done)) {
                    let clamped: i64 = if self.valve_pid_output < 0 {
                        0
                    } else if self.valve_pid_output > 1000 {
                        1000
                    } else {
                        self.valve_pid_output
                    };
                    Some(WingAntiIceValveSignal::new(clamped as u16))
                } else {
                    Some(WingAntiIceValveSignal::new_closed())
                }
            },
        }
    }
}


/// Newton's-law-of-cooling step: the temperature moves toward ambient by
/// `gap * dt * 0.1 / 1000` milli-degrees, rounded away from zero so a
/// non-zero gap always shrinks.
pub open spec fn spec_radiate_step(t: int, ambient_t: int, dt_ms: int) -> int {
    if t >= ambient_t {
        t - ceil_div((t - ambient_t) * dt_ms, 10_000)
    } else {
        t + ceil_div((ambient_t - t) * dt_ms, 10_000)
    }
}

/// The wing anti-ice consumer: a fixed-volume container fed from the
/// bleed system and venting to ambient, radiating its heat to the
/// atmosphere.
pub struct WingAntiIceConsumer {
    pub pipe: PneumaticPipe,
}

/// Heat conduction rate to ambient: 0.1 per second.
pub const CONDUCTION_RATE_PER_10K_MS: i64 = 10_000;

impl WingAntiIceConsumer {
    pub open spec fn wf(self) -> bool {
        self.pipe.wf()
    }

    /// A consumer of the given volume at ambient sea-level conditions
    /// (14.7 psi, 15 degrees Celsius).
    pub fn new(volume_ml: i64) -> (r: Self)
        requires
            1 <= volume_ml <= crate::container::VOLUME_MAX_ML,
        ensures
            r.wf(),
            r.pipe.spec_volume() == volume_ml,
            r.pipe.spec_pressure() == 14_700,
            r.pipe.spec_temperature() == 15_000,
    {
        WingAntiIceConsumer { pipe: PneumaticPipe::new(volume_ml, 14_700, 15_000) }
    }

    pub fn pressure(&self) -> (p: i64)
        ensures
            p == self.pipe.spec_pressure(),
    {
        self.pipe.pressure()
    }

    pub fn volume(&self) -> (v: i64)
        ensures
            v == self.pipe.spec_volume(),
    {
        self.pipe.volume()
    }

    pub fn temperature(&self) -> (t: i64)
        ensures
            t == self.pipe.spec_temperature(),
    {
        self.pipe.temperature()
    }

    /// Moves a fluid volume in or out of the consumer.
    pub fn change_volume(&mut self, dv_ml: i64)
        requires
            old(self).wf(),
            -crate::container::VOLUME_DELTA_MAX_ML <= dv_ml <= crate::container::VOLUME_DELTA_MAX_ML,
        ensures
            final(self).wf(),
            final(self).pipe.spec_pressure() == crate::container::pressure_after_volume_change(
                old(self).pipe.spec_pressure(),
                old(self).pipe.spec_volume(),
                dv_ml as int,
            ),
            final(self).pipe.spec_volume() == old(self).pipe.spec_volume(),
            final(self).pipe.spec_temperature() == old(self).pipe.spec_temperature(),
    {
        self.pipe.change_volume(dv_ml);
    }

    /// Applies the pressure change of a moved volume without any further
    /// bookkeeping.
    pub fn update_pressure_only(&mut self, dv_ml: i64)
        requires
            old(self).wf(),
            -crate::container::VOLUME_DELTA_MAX_ML <= dv_ml <= crate::container::VOLUME_DELTA_MAX_ML,
        ensures
            final(self).wf(),
            final(self).pipe.spec_pressure() == crate::container::pressure_after_volume_change(
                old(self).pipe.spec_pressure(),
                old(self).pipe.spec_volume(),
                dv_ml as int,
            ),
            final(self).pipe.spec_volume() == old(self).pipe.spec_volume(),
            final(self).pipe.spec_temperature() == old(self).pipe.spec_temperature(),
    {
        self.pipe.update_pressure_only(dv_ml);
    }

    /// Adds a temperature delta, clamped at the physical bounds.
    pub fn update_temperature(&mut self, dt_mc: i64)
        requires
            old(self).wf(),
            -2_000_000_000_000_000 <= dt_mc <= 2_000_000_000_000_000,
        ensures
            final(self).wf(),
            final(self).pipe.spec_temperature() == clamp(
                old(self).pipe.spec_temperature() + dt_mc,
                TEMP_MIN_MC as int,
                TEMP_MAX_MC as int,
            ),
            final(self).pipe.spec_pressure() == old(self).pipe.spec_pressure(),
            final(self).pipe.spec_volume() == old(self).pipe.spec_volume(),
    {
        self.pipe.update_temperature(dt_mc);
    }

    /// Radiates heat toward the ambient temperature for one tick.
    pub fn radiate_heat_to_ambient(&mut self, dt_ms: u64, ambient_temperature_mc: i64)
        requires
            old(self).wf(),
            dt_ms <= MAX_TICK_MS,
            TEMP_MIN_MC <= ambient_temperature_mc <= TEMP_MAX_MC,
        ensures
            final(self).wf(),
            final(self).pipe.spec_temperature() == clamp(
                spec_radiate_step(
                    old(self).pipe.spec_temperature(),
                    ambient_temperature_mc as int,
                    dt_ms as int,
                ),
                TEMP_MIN_MC as int,
                TEMP_MAX_MC as int,
            ),
            final(self).pipe.spec_pressure() == old(self).pipe.spec_pressure(),
            final(self).pipe.spec_volume() == old(self).pipe.spec_volume(),
    {
        let t: i64 = self.pipe.temperature();
        let delta: i64 = if t >= ambient_temperature_mc {
            let gap: i64 = t - ambient_temperature_mc;
            proof {
                assert(0 <= gap * (dt_ms as i64) <= 2_000_000 * (MAX_TICK_MS as int))
                    by (nonlinear_arith)
                    requires
                        0 <= gap <= 2_000_000,
                        0 <= dt_ms <= MAX_TICK_MS,
                ;
                assert(0 <= (gap * (dt_ms as i64) + 9_999) / 10_000 <= 2_000_000 * (
                MAX_TICK_MS as int)) by (nonlinear_arith)
                    requires
                        0 <= gap * (dt_ms as i64) <= 2_000_000 * (MAX_TICK_MS as int),
                ;
            }
            -((gap * (dt_ms as i64) + 9_999) / 10_000)
        } else {
            let gap: i64 = ambient_temperature_mc - t;
            proof {
                assert(0 <= gap * (dt_ms as i64) <= 2_000_000 * (MAX_TICK_MS as int))
                    by (nonlinear_arith)
                    requires
                        0 <= gap <= 2_000_000,
                        0 <= dt_ms <= MAX_TICK_MS,
                ;
                assert(0 <= (gap * (dt_ms as i64) + 9_999) / 10_000 <= 2_000_000 * (
                MAX_TICK_MS as int)) by (nonlinear_arith)
                    requires
                        0 <= gap * (dt_ms as i64) <= 2_000_000 * (MAX_TICK_MS as int),
                ;
            }
            (gap * (dt_ms as i64) + 9_999) / 10_000
        };
        self.pipe.update_temperature(delta);
    }
}

/// One wing anti-ice chain: consumer, supply valve, exhaust and
/// controller.
pub struct WingAntiIceChain {
    pub exhaust: StaticExhaust,
    pub valve: DefaultValve,
    pub consumer: WingAntiIceConsumer,
    pub controller: WingAntiIceValveController,
}

impl WingAntiIceChain {
    pub open spec fn wf(self) -> bool {
        &&& self.exhaust.wf()
        &&& self.valve.wf()
        &&& self.consumer.wf()
        &&& self.controller.wf()
    }
}

/// One chain and its supply after a full tick: regulator step, controller
/// update against the sampled button and supply state, valve open amount
/// from the controller signal, exhaust to ambient, radiative cooling and
/// the valve transfer from the supply.
pub open spec fn spec_chain_after(
    chain: WingAntiIceChain,
    supply: PneumaticPipe,
    dt_ms: nat,
    ambient_mpsi: int,
    ambient_temperature_mc: int,
    mode: WingAntiIcePushButtonMode,
) -> (WingAntiIceChain, PneumaticPipe) {
    let measurement = chain.consumer.pipe.pressure as int;
    let pid0 = chain.controller.valve_pid;
    let out = pid_output(pid0, measurement);
    let pid1 = PidController {
        integral_term: pid_i_term(pid0, measurement) as i64,
        prev_measurement: Some(chain.consumer.pipe.pressure),
        ..pid0
    };
    let ctrl1 = WingAntiIceValveController {
        valve_pid: pid1,
        valve_pid_output: out as i64,
        ..chain.controller
    };
    let pressurized = 20 * supply.pressure > 21 * ambient_mpsi;
    let ctrl2 = spec_controller_after(ctrl1, dt_ms as int, mode, pressurized);
    let open = spec_signal_open_amount(ctrl2);
    let valve2 = DefaultValve { open_amount: open as u16 };
    let p_after_exhaust = exhaust_step(
        chain.consumer.pipe.pressure as int,
        ambient_mpsi,
        chain.exhaust.open_amount as int,
        transfer_decay_complement(dt_ms),
    );
    let t_after_radiate = clamp(
        spec_radiate_step(
            chain.consumer.pipe.temperature as int,
            ambient_temperature_mc,
            dt_ms as int,
        ),
        TEMP_MIN_MC as int,
        TEMP_MAX_MC as int,
    );
    let pipe1 = PneumaticPipe {
        pressure: p_after_exhaust as i64,
        temperature: t_after_radiate as i64,
        ..chain.consumer.pipe
    };
    let moved = valve_move_with_temp(open, dt_ms, supply, pipe1);
    let chain2 = WingAntiIceChain {
        exhaust: chain.exhaust,
        valve: valve2,
        consumer: WingAntiIceConsumer { pipe: moved.1 },
        controller: ctrl2,
    };
    (chain2, moved.0)
}

/// Both wing anti-ice chains with the aggregated system state.
pub struct WingAntiIceComplex {
    pub left: WingAntiIceChain,
    pub right: WingAntiIceChain,
    pub wai_system_has_fault: bool,
    pub wai_system_on: bool,
}

/// A chain faults when its controller signals on while its valve stays
/// closed.
pub open spec fn spec_chain_faulted(chain: WingAntiIceChain) -> bool {
    chain.controller.controller_signals_on && chain.valve.open_amount == 0
}

impl WingAntiIceComplex {
    pub open spec fn wf(self) -> bool {
        &&& self.left.wf()
        &&& self.right.wf()
    }

    /// Both chains in the powered-down state: exhausts fixed at one tenth
    /// open, valves closed, one-cubic-metre consumers at ambient.
    pub fn new() -> (r: Self)
        ensures
            r.wf(),
            r.wai_system_has_fault == false,
            r.wai_system_on == false,
            r.left.exhaust.open_amount == 100,
            r.right.exhaust.open_amount == 100,
            r.left.valve.open_amount == 0,
            r.right.valve.open_amount == 0,
            r.left.consumer.pipe.spec_volume() == 1_000_000,
            r.right.consumer.pipe.spec_volume() == 1_000_000,
            r.left.consumer.pipe.spec_pressure() == 14_700,
            r.right.consumer.pipe.spec_pressure() == 14_700,
            r.left.consumer.pipe.spec_temperature() == 15_000,
            r.right.consumer.pipe.spec_temperature() == 15_000,
            r.left.controller == r.right.controller,
            r.left.controller.system_test_timer_ms == 0,
            r.left.controller.system_test_done == false,
            r.left.controller.controller_signals_on == false,
            r.left.controller.is_on_ground == true,
    {
        let left = WingAntiIceChain {
            exhaust: StaticExhaust::new(100),
            valve: DefaultValve::new_closed(),
            consumer: WingAntiIceConsumer::new(1_000_000),
            controller: WingAntiIceValveController::new(),
        };
        let right = WingAntiIceChain {
            exhaust: StaticExhaust::new(100),
            valve: DefaultValve::new_closed(),
            consumer: WingAntiIceConsumer::new(1_000_000),
            controller: WingAntiIceValveController::new(),
        };
        WingAntiIceComplex { left, right, wai_system_has_fault: false, wai_system_on: false }
    }

    /// Takes the on-ground flag read at the simulation boundary, for both
    /// chains.
    pub fn set_on_ground(&mut self, on_ground: bool)
        ensures
            final(self).left.controller.is_on_ground == on_ground,
            final(self).right.controller.is_on_ground == on_ground,
            final(self).left.controller == (WingAntiIceValveController {
                is_on_ground: on_ground,
                ..old(self).left.controller
            }),
            final(self).right.controller == (WingAntiIceValveController {
                is_on_ground: on_ground,
                ..old(self).right.controller
            }),
            final(self).left == (WingAntiIceChain {
                controller: final(self).left.controller,
                ..old(self).left
            }),
            final(self).right == (WingAntiIceChain {
                controller: final(self).right.controller,
                ..old(self).right
            }),
            final(self).wai_system_has_fault == old(self).wai_system_has_fault,
            final(self).wai_system_on == old(self).wai_system_on,
    {
        self.left.controller.set_on_ground(on_ground);
        self.right.controller.set_on_ground(on_ground);
    }

    pub fn is_wai_valve_open(&self, number: usize) -> (r: bool)
        requires
            number < 2,
        ensures
            number == 0 ==> r == (self.left.valve.open_amount > 0),
            number == 1 ==> r == (self.right.valve.open_amount > 0),
    {
        if number == 0 {
            self.left.valve.is_open()
        } else {
            self.right.valve.is_open()
        }
    }

    pub fn wai_consumer_pressure(&self, number: usize) -> (r: i64)
        requires
            number < 2,
        ensures
            number == 0 ==> r == self.left.consumer.pipe.spec_pressure(),
            number == 1 ==> r == self.right.consumer.pipe.spec_pressure(),
    {
        if number == 0 {
            self.left.consumer.pressure()
        } else {
            self.right.consumer.pressure()
        }
    }

    pub fn wai_consumer_temperature(&self, number: usize) -> (r: i64)
        requires
            number < 2,
        ensures
            number == 0 ==> r == self.left.consumer.pipe.spec_temperature(),
            number == 1 ==> r == self.right.consumer.pipe.spec_temperature(),
    {
        if number == 0 {
            self.left.consumer.temperature()
        } else {
            self.right.consumer.temperature()
        }
    }

    /// One full tick of both chains, against their respective supply
    /// containers; then the aggregated system state: the system counts as
    /// on only when both controllers signal on and no chain faults, and a
    /// fault is any chain whose controller signals on against a closed
    /// valve.
    pub fn update(
        &mut self,
        dt_ms: u64,
        ambient_mpsi: i64,
        ambient_temperature_mc: i64,
        wai_mode: WingAntiIcePushButtonMode,
        left_supply: &mut PneumaticPipe,
        right_supply: &mut PneumaticPipe,
    )
        requires
            old(self).wf(),
            old(left_supply).wf(),
            old(right_supply).wf(),
            dt_ms <= MAX_TICK_MS,
            0 <= ambient_mpsi <= PRESSURE_MAX_MPSI,
            TEMP_MIN_MC <= ambient_temperature_mc <= TEMP_MAX_MC,
        ensures
            final(self).wf(),
            final(left_supply).wf(),
            final(right_supply).wf(),
            ({
                let l = spec_chain_after(
                    old(self).left,
                    *old(left_supply),
                    dt_ms as nat,
                    ambient_mpsi as int,
                    ambient_temperature_mc as int,
                    wai_mode,
                );
                let r = spec_chain_after(
                    old(self).right,
                    *old(right_supply),
                    dt_ms as nat,
                    ambient_mpsi as int,
                    ambient_temperature_mc as int,
                    wai_mode,
                );
                let fault = spec_chain_faulted(l.0) || spec_chain_faulted(r.0);
                let both_on = l.0.controller.controller_signals_on
                    && r.0.controller.controller_signals_on;
                &&& final(self).left == l.0
                &&& final(self).right == r.0
                &&& *final(left_supply) == l.1
                &&& *final(right_supply) == r.1
                &&& final(self).wai_system_has_fault == fault
                &&& final(self).wai_system_on == (if !both_on {
                    false
                } else if !fault {
                    true
                } else {
                    old(self).wai_system_on
                })
            }),
    {
        let left_on_and_closed: bool = Self::update_chain(
            &mut self.left,
            dt_ms,
            ambient_mpsi,
            ambient_temperature_mc,
            wai_mode,
            left_supply,
        );
        let right_on_and_closed: bool = Self::update_chain(
            &mut self.right,
            dt_ms,
            ambient_mpsi,
            ambient_temperature_mc,
            wai_mode,
            right_supply,
        );
        let has_fault: bool = left_on_and_closed || right_on_and_closed;
        let both_on: bool = self.left.controller.controller_signals_on()
            && self.right.controller.controller_signals_on();

        self.wai_system_has_fault = has_fault;
        if !both_on {
            self.wai_system_on = false;
        } else if !has_fault {
            self.wai_system_on = true;
        }
    }

    /// One chain's tick; reports whether the chain faulted.
    fn update_chain(
        chain: &mut WingAntiIceChain,
        dt_ms: u64,
        ambient_mpsi: i64,
        ambient_temperature_mc: i64,
        wai_mode: WingAntiIcePushButtonMode,
        supply: &mut PneumaticPipe,
    ) -> (faulted: bool)
        requires
            old(chain).wf(),
            old(supply).wf(),
            dt_ms <= MAX_TICK_MS,
            0 <= ambient_mpsi <= PRESSURE_MAX_MPSI,
            TEMP_MIN_MC <= ambient_temperature_mc <= TEMP_MAX_MC,
        ensures
            final(chain).wf(),
            final(supply).wf(),
            ({
                let stepped = spec_chain_after(
                    *old(chain),
                    *old(supply),
                    dt_ms as nat,
                    ambient_mpsi as int,
                    ambient_temperature_mc as int,
                    wai_mode,
                );
                &&& *final(chain) == stepped.0
                &&& *final(supply) == stepped.1
                &&& faulted == spec_chain_faulted(stepped.0)
            }),
    {
        let measurement: i64 = chain.consumer.pressure();
        let out: i64 = chain.controller.valve_pid.next_control_output(measurement);
        chain.controller.valve_pid_output = out;

        let pressurized: bool = 20 * supply.pressure() > 21 * ambient_mpsi;
        chain.controller.update(dt_ms, wai_mode, pressurized);

        let sig: Option<WingAntiIceValveSignal> = chain.controller.signal();
        if let Some(s) = sig {
            chain.valve.update_open_amount(s.target_open_amount());
        }

        let faulted: bool = chain.controller.controller_signals_on() && !chain.valve.is_open();

        chain.exhaust.update_move_fluid(dt_ms, ambient_mpsi, &mut chain.consumer.pipe);
        chain.consumer.radiate_heat_to_ambient(dt_ms, ambient_temperature_mc);
        chain.valve.update_move_fluid_with_temperature(dt_ms, supply, &mut chain.consumer.pipe);

        faulted
    }
}


/// Controller state after ticks of the given lengths with a constant
/// button position and supply state.
pub open spec fn controller_iter(
    c: WingAntiIceValveController,
    dts: Seq<int>,
    mode: WingAntiIcePushButtonMode,
    pressurized: bool,
) -> WingAntiIceValveController
    decreases dts.len(),
{
    if dts.len() == 0 {
        c
    } else {
        controller_iter(spec_controller_after(c, dts[0], mode, pressurized), dts.drop_first(), mode, pressurized)
    }
}

/// Test-timer gating, unpressurized side: on the ground with the supply
/// unpressurized the self-test timer stays at zero indefinitely, whatever
/// the button does.
pub proof fn lemma_timer_stays_zero_unpressurized(
    c: WingAntiIceValveController,
    dts: Seq<int>,
    mode: WingAntiIcePushButtonMode,
)
    requires
        c.is_on_ground,
        c.system_test_timer_ms == 0,
        forall|i: int| 0 <= i < dts.len() ==> #[trigger] dts[i] >= 0,
    ensures
        controller_iter(c, dts, mode, false).system_test_timer_ms == 0,
    decreases dts.len(),
{
    if dts.len() > 0 {
        let c1 = spec_controller_after(c, dts[0], mode, false);
        assert(c1.system_test_timer_ms == 0);
        assert(c1.is_on_ground);
        assert(forall|i: int|
            0 <= i < dts.drop_first().len() ==> #[trigger] dts.drop_first()[i] >= 0);
        lemma_timer_stays_zero_unpressurized(c1, dts.drop_first(), mode);
    }
}

/// Once the ground test has completed with the button held on, the
/// controller is frozen: the timer rests at the full test time, the
/// completion flag stays set and the indication stays off.
proof fn lemma_controller_frozen_after_test(c: WingAntiIceValveController, dts: Seq<int>)
    requires
        c.is_on_ground,
        c.system_test_done,
        c.system_test_timer_ms == WAI_TEST_TIME_MS,
        !c.controller_signals_on,
        forall|i: int| 0 <= i < dts.len() ==> #[trigger] dts[i] >= 0,
    ensures
        ({
            let f = controller_iter(c, dts, WingAntiIcePushButtonMode::On, true);
            &&& f.system_test_timer_ms == WAI_TEST_TIME_MS
            &&& f.system_test_done
            &&& !f.controller_signals_on
        }),
    decreases dts.len(),
{
    if dts.len() > 0 {
        let c1 = spec_controller_after(c, dts[0], WingAntiIcePushButtonMode::On, true);
        assert(forall|i: int|
            0 <= i < dts.drop_first().len() ==> #[trigger] dts.drop_first()[i] >= 0);
        lemma_controller_frozen_after_test(c1, dts.drop_first());
    }
}

/// Test-timer gating, pressurized side: with the button on, on the
/// ground and the supply pressurized, the timer accumulates the elapsed
/// time up to exactly the test duration and then freezes; the indication
/// is on exactly while the accumulated time is still short of it.
pub proof fn lemma_test_timer_completes(c: WingAntiIceValveController, dts: Seq<int>)
    requires
        c.is_on_ground,
        !c.system_test_done,
        c.system_test_timer_ms < WAI_TEST_TIME_MS,
        forall|i: int| 0 <= i < dts.len() ==> #[trigger] dts[i] >= 0,
    ensures
        ({
            let f = controller_iter(c, dts, WingAntiIcePushButtonMode::On, true);
            let total = c.system_test_timer_ms + seq_sum(dts);
            &&& f.system_test_timer_ms == (if total >= WAI_TEST_TIME_MS {
                WAI_TEST_TIME_MS as int
            } else {
                total
            })
            &&& f.system_test_done == (total >= WAI_TEST_TIME_MS)
            &&& (dts.len() > 0 ==> f.controller_signals_on == (total < WAI_TEST_TIME_MS))
        }),
    decreases dts.len(),
{
    lemma_seq_sum_nonneg(dts);
    if dts.len() > 0 {
        let c1 = spec_controller_after(c, dts[0], WingAntiIcePushButtonMode::On, true);
        assert(forall|i: int|
            0 <= i < dts.drop_first().len() ==> #[trigger] dts.drop_first()[i] >= 0);
        lemma_seq_sum_nonneg(dts.drop_first());
        if c.system_test_timer_ms + dts[0] >= WAI_TEST_TIME_MS {
            lemma_controller_frozen_after_test(c1, dts.drop_first());
        } else {
            lemma_test_timer_completes(c1, dts.drop_first());
        }
    }
}

/// Leaving the ground at any point resets the timer to zero and clears
/// the completion flag after the next tick, and with the button on the
/// indication comes on without any test gating.
pub proof fn lemma_airborne_resets_test(
    c: WingAntiIceValveController,
    dt_ms: int,
    mode: WingAntiIcePushButtonMode,
    pressurized: bool,
)
    requires
        c.wf(),
        !c.is_on_ground,
        dt_ms >= 0,
    ensures
        spec_controller_after(c, dt_ms, mode, pressurized).system_test_timer_ms == 0,
        !spec_controller_after(c, dt_ms, mode, pressurized).system_test_done,
        mode == WingAntiIcePushButtonMode::On ==> spec_controller_after(
            c,
            dt_ms,
            mode,
            pressurized,
        ).controller_signals_on,
{
}

} // verus!
