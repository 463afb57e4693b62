//! Valves and exhausts: volumetric transfer between containers, or from a
//! container to the infinite ambient bath.
//!
//! A transfer moves `open_amount * equalisation_volume * (1 - e^(-rate*dt))`
//! of fluid per tick, where the equalisation volume is the amount that would
//! exactly equalise the two pressures. For an exhaust the container volume
//! cancels out of the resulting pressure change, which is therefore computed
//! directly, rounded away from zero so that a non-zero pressure gap always
//! makes progress toward ambient.

use crate::container::clamp;
use crate::container::pressure_after_volume_change;
use crate::container::PneumaticPipe;
use crate::container::PRESSURE_MAX_MPSI;
use crate::container::STIFFNESS_MPSI;
use crate::container::TEMP_MAX_MC;
use crate::container::TEMP_MIN_MC;
use crate::container::VOLUME_DELTA_MAX_ML;
use crate::container::VOLUME_MAX_ML;
use crate::decay::lemma_pow_frac_below_one;
use crate::decay::lemma_pow_frac_bounds;
use crate::decay::decay_pow;
use crate::decay::pow_frac;
use crate::decay::FRAC_ONE;
use crate::decay::MAX_TICK_MS;
use vstd::prelude::*;

verus! {

/// Per-millisecond retained fraction for the mass-transfer rate of 1/s,
/// in Q32: floor(FRAC_ONE * e^(-0.001)).
pub const TRANSFER_DECAY_PER_MS: u64 = 4_290_674_475;

/// `1000 * FRAC_ONE`: the combined permille and Q32 denominator.
pub const PERMILLE_FRAC: i64 = 4_294_967_296_000;

/// Q16 scale used for the volume-transfer decay factor.
pub const FRAC16_ONE: i64 = 0x1_0000;

/// Fraction of a pressure gap that decays away during `dt_ms` milliseconds
/// at the mass-transfer rate of 1/s, in Q32.
pub open spec fn transfer_decay_complement(dt_ms: nat) -> int {
    FRAC_ONE - pow_frac(TRANSFER_DECAY_PER_MS as int, dt_ms)
}

pub proof fn lemma_transfer_decay_complement_bounds(dt_ms: nat)
    ensures
        0 <= transfer_decay_complement(dt_ms) <= FRAC_ONE,
        dt_ms >= 1 ==> 1 <= transfer_decay_complement(dt_ms),
        dt_ms == 0 ==> transfer_decay_complement(dt_ms) == 0,
{
    lemma_pow_frac_bounds(TRANSFER_DECAY_PER_MS as int, dt_ms);
    if dt_ms >= 1 {
        lemma_pow_frac_below_one(TRANSFER_DECAY_PER_MS as int, dt_ms);
    }
}

/// Ceiling division for non-negative `a` and positive `b`.
pub open spec fn ceil_div(a: int, b: int) -> int {
    (a + b - 1) / b
}

/// Magnitude of the pressure change that one exhaust tick applies to a
/// container whose pressure differs from ambient by `gap_abs`.
pub open spec fn exhaust_pressure_delta(gap_abs: int, open_pm: int, dc: int) -> int {
    ceil_div(gap_abs * open_pm * dc, PERMILLE_FRAC as int)
}

/// Container pressure after one exhaust tick toward ambient.
pub open spec fn exhaust_step(p: int, ambient: int, open_pm: int, dc: int) -> int {
    if p >= ambient {
        p - exhaust_pressure_delta(p - ambient, open_pm, dc)
    } else {
        p + exhaust_pressure_delta(ambient - p, open_pm, dc)
    }
}

/// One exhaust tick moves the pressure toward ambient, never past it, and
/// by at least one milli-psi whenever the exhaust is open, the tick is not
/// empty and the gap is not already closed.
pub proof fn lemma_exhaust_delta_bounds(gap_abs: int, open_pm: int, dc: int)
    requires
        0 <= gap_abs <= PRESSURE_MAX_MPSI,
        0 <= open_pm <= 1000,
        0 <= dc <= FRAC_ONE,
    ensures
        0 <= exhaust_pressure_delta(gap_abs, open_pm, dc) <= gap_abs,
        gap_abs >= 1 && open_pm >= 1 && dc >= 1 ==> exhaust_pressure_delta(
            gap_abs,
            open_pm,
            dc,
        ) >= 1,
{
    let num = gap_abs * open_pm * dc;
    let d = PERMILLE_FRAC as int;
    assert(0 <= num <= gap_abs * d) by (nonlinear_arith)
        requires
            0 <= gap_abs,
            0 <= open_pm <= 1000,
            0 <= dc <= FRAC_ONE,
            d == 1000 * (FRAC_ONE as int),
            num == gap_abs * open_pm * dc,
    ;
    assert(ceil_div(num, d) <= gap_abs) by (nonlinear_arith)
        requires
            0 <= num <= gap_abs * d,
            d == PERMILLE_FRAC as int,
    ;
    assert(ceil_div(num, d) >= 0) by (nonlinear_arith)
        requires
            0 <= num,
            d == PERMILLE_FRAC as int,
    ;
    if gap_abs >= 1 && open_pm >= 1 && dc >= 1 {
        assert(num >= 1) by (nonlinear_arith)
            requires
                gap_abs >= 1,
                open_pm >= 1,
                dc >= 1,
                num == gap_abs * open_pm * dc,
        ;
        assert(ceil_div(num, d) >= 1) by (nonlinear_arith)
            requires
                num >= 1,
                d == PERMILLE_FRAC as int,
        ;
    }
}

/// An exhaust with a fixed open amount, venting a container to ambient.
pub struct StaticExhaust {
    pub open_amount: u16,
}

impl StaticExhaust {
    pub open spec fn wf(self) -> bool {
        self.open_amount <= 1000
    }

    /// The open amount is fixed at construction, in permille.
    pub fn new(open_amount_pm: u16) -> (r: Self)
        requires
            open_amount_pm <= 1000,
        ensures
            r.wf(),
            r.open_amount == open_amount_pm,
    {
        StaticExhaust { open_amount: open_amount_pm }
    }

    pub fn open_amount(&self) -> (r: u16)
        ensures
            r == self.open_amount,
    {
        self.open_amount
    }

    /// Vents fluid between the container and the ambient bath for one tick.
    /// The moved volume is `open * (p - ambient) * volume / STIFFNESS`
    /// scaled by the decay factor; the container volume cancels out of the
    /// resulting pressure change, which is applied directly.
    pub fn update_move_fluid(&self, dt_ms: u64, ambient_mpsi: i64, from: &mut PneumaticPipe)
        requires
            self.wf(),
            old(from).wf(),
            dt_ms <= MAX_TICK_MS,
            0 <= ambient_mpsi <= PRESSURE_MAX_MPSI,
        ensures
            final(from).wf(),
            final(from).spec_pressure() == exhaust_step(
                old(from).spec_pressure(),
                ambient_mpsi as int,
                self.open_amount as int,
                transfer_decay_complement(dt_ms as nat),
            ),
            final(from).spec_volume() == old(from).spec_volume(),
            final(from).spec_temperature() == old(from).spec_temperature(),
            ambient_mpsi <= old(from).spec_pressure() ==> ambient_mpsi <= final(from).spec_pressure() <= old(from).spec_pressure(),
            old(from).spec_pressure() <= ambient_mpsi ==> old(from).spec_pressure() <= final(from).spec_pressure() <= ambient_mpsi,
    {
        let retained: u64 = decay_pow(TRANSFER_DECAY_PER_MS, dt_ms);
        let dc: i64 = (FRAC_ONE - retained) as i64;
        proof {
            lemma_transfer_decay_complement_bounds(dt_ms as nat);
        }
        if from.pressure >= ambient_mpsi {
            let gap: i64 = from.pressure - ambient_mpsi;
            proof {
                lemma_exhaust_delta_bounds(gap as int, self.open_amount as int, dc as int);
                assert(0 <= gap * (self.open_amount as i64) <= 1_000_000_000) by (nonlinear_arith)
                    requires
                        0 <= gap <= PRESSURE_MAX_MPSI,
                        0 <= self.open_amount <= 1000,
                ;
                assert(0 <= gap * (self.open_amount as i64) * dc <= 4_294_967_296_000_000_000)
                    by (nonlinear_arith)
                    requires
                        0 <= gap * (self.open_amount as i64) <= 1_000_000_000,
                        0 <= dc <= FRAC_ONE,
                ;
            }
            let num: i64 = gap * (self.open_amount as i64) * dc;
            let delta: i64 = (num + (PERMILLE_FRAC - 1)) / PERMILLE_FRAC;
            from.pressure = from.pressure - delta;
        } else {
            let gap: i64 = ambient_mpsi - from.pressure;
            proof {
                lemma_exhaust_delta_bounds(gap as int, self.open_amount as int, dc as int);
                assert(0 <= gap * (self.open_amount as i64) <= 1_000_000_000) by (nonlinear_arith)
                    requires
                        0 <= gap <= PRESSURE_MAX_MPSI,
                        0 <= self.open_amount <= 1000,
                ;
                assert(0 <= gap * (self.open_amount as i64) * dc <= 4_294_967_296_000_000_000)
                    by (nonlinear_arith)
                    requires
                        0 <= gap * (self.open_amount as i64) <= 1_000_000_000,
                        0 <= dc <= FRAC_ONE,
                ;
            }
            let num: i64 = gap * (self.open_amount as i64) * dc;
            let delta: i64 = (num + (PERMILLE_FRAC - 1)) / PERMILLE_FRAC;
            from.pressure = from.pressure + delta;
        }
    }
}

/// Pressure after `n` exhaust ticks with the same ambient pressure, open
/// amount and decay factor.
pub open spec fn exhaust_iter(p: int, ambient: int, open_pm: int, dc: int, n: nat) -> int
    decreases n,
{
    if n == 0 {
        p
    } else {
        exhaust_step(exhaust_iter(p, ambient, open_pm, dc, (n - 1) as nat), ambient, open_pm, dc)
    }
}

/// Exhaust equilibrium: with the exhaust open at least a little and ticks
/// of at least one millisecond, repeated venting drives the container
/// pressure all the way to ambient once the tick count reaches the initial
/// pressure gap in milli-psi, and the pressure then stays there.
pub proof fn lemma_exhaust_reaches_ambient(p: int, ambient: int, open_pm: int, dc: int, n: nat)
    requires
        0 <= p <= PRESSURE_MAX_MPSI,
        0 <= ambient <= PRESSURE_MAX_MPSI,
        1 <= open_pm <= 1000,
        1 <= dc <= FRAC_ONE,
        n >= (if p >= ambient {
            p - ambient
        } else {
            ambient - p
        }),
    ensures
        exhaust_iter(p, ambient, open_pm, dc, n) == ambient,
    decreases n,
{
    let gap_abs = if p >= ambient {
        p - ambient
    } else {
        ambient - p
    };
    if n == 0 {
    } else {
        lemma_exhaust_iter_stays_in_range(p, ambient, open_pm, dc, (n - 1) as nat);
        let prev = exhaust_iter(p, ambient, open_pm, dc, (n - 1) as nat);
        let prev_gap = if prev >= ambient {
            prev - ambient
        } else {
            ambient - prev
        };
        lemma_exhaust_iter_gap_shrinks(p, ambient, open_pm, dc, (n - 1) as nat);
        if prev_gap == 0 {
            lemma_exhaust_delta_bounds(0, open_pm, dc);
        } else {
            lemma_exhaust_delta_bounds(prev_gap, open_pm, dc);
        }
    }
}

/// Every exhaust iterate stays between the initial pressure and ambient.
pub proof fn lemma_exhaust_iter_stays_in_range(
    p: int,
    ambient: int,
    open_pm: int,
    dc: int,
    n: nat,
)
    requires
        0 <= p <= PRESSURE_MAX_MPSI,
        0 <= ambient <= PRESSURE_MAX_MPSI,
        0 <= open_pm <= 1000,
        0 <= dc <= FRAC_ONE,
    ensures
        p >= ambient ==> ambient <= exhaust_iter(p, ambient, open_pm, dc, n) <= p,
        p <= ambient ==> p <= exhaust_iter(p, ambient, open_pm, dc, n) <= ambient,
    decreases n,
{
    if n > 0 {
        lemma_exhaust_iter_stays_in_range(p, ambient, open_pm, dc, (n - 1) as nat);
        let prev = exhaust_iter(p, ambient, open_pm, dc, (n - 1) as nat);
        if prev >= ambient {
            lemma_exhaust_delta_bounds(prev - ambient, open_pm, dc);
        } else {
            lemma_exhaust_delta_bounds(ambient - prev, open_pm, dc);
        }
    }
}

/// After `n` ticks the remaining pressure gap is at most the initial gap
/// minus `n`, until it closes entirely.
proof fn lemma_exhaust_iter_gap_shrinks(p: int, ambient: int, open_pm: int, dc: int, n: nat)
    requires
        0 <= p <= PRESSURE_MAX_MPSI,
        0 <= ambient <= PRESSURE_MAX_MPSI,
        1 <= open_pm <= 1000,
        1 <= dc <= FRAC_ONE,
    ensures
        ({
            let cur = exhaust_iter(p, ambient, open_pm, dc, n);
            let cur_gap = if cur >= ambient {
                cur - ambient
            } else {
                ambient - cur
            };
            let init_gap = if p >= ambient {
                p - ambient
            } else {
                ambient - p
            };
            cur_gap <= init_gap - n || cur_gap == 0
        }),
    decreases n,
{
    if n > 0 {
        lemma_exhaust_iter_gap_shrinks(p, ambient, open_pm, dc, (n - 1) as nat);
        lemma_exhaust_iter_stays_in_range(p, ambient, open_pm, dc, (n - 1) as nat);
        let prev = exhaust_iter(p, ambient, open_pm, dc, (n - 1) as nat);
        if prev >= ambient {
            lemma_exhaust_delta_bounds(prev - ambient, open_pm, dc);
        } else {
            lemma_exhaust_delta_bounds(ambient - prev, open_pm, dc);
        }
    }
}


/// The Q32 decay complement truncated to Q16, as used for volume transfer.
pub open spec fn q16_of(dc: int) -> int {
    dc / (FRAC16_ONE as int)
}

/// Volume moved by one valve tick from a container with volume `v_from`
/// whose pressure exceeds the other side's by `gap_abs`: the equalisation
/// volume scaled by the open amount and the Q16 decay complement, each
/// stage rounded down.
pub open spec fn valve_transfer_volume(gap_abs: int, v_from: int, open_pm: int, dc16: int) -> int {
    ((gap_abs * v_from / (STIFFNESS_MPSI as int)) * open_pm / 1000) * dc16 / (FRAC16_ONE as int)
}

/// Temperature change of the receiving container when `vol_abs` of fluid
/// at the donor's temperature mixes into it, rounded toward zero.
pub open spec fn mixed_temperature_delta(
    t_donor: int,
    t_receiver: int,
    vol_abs: int,
    v_receiver: int,
) -> int {
    if t_donor >= t_receiver {
        (t_donor - t_receiver) * vol_abs / v_receiver
    } else {
        -((t_receiver - t_donor) * vol_abs / v_receiver)
    }
}

/// Both containers after one valve tick: fluid moves from the
/// higher-pressure side to the other, and the receiver's temperature
/// moves toward the donor's in proportion to the transferred volume.
pub open spec fn valve_move_with_temp(
    open_pm: int,
    dt_ms: nat,
    from: PneumaticPipe,
    to: PneumaticPipe,
) -> (PneumaticPipe, PneumaticPipe) {
    let dc16 = q16_of(transfer_decay_complement(dt_ms));
    if from.pressure >= to.pressure {
        let vol = valve_transfer_volume(
            from.pressure - to.pressure,
            from.volume as int,
            open_pm,
            dc16,
        );
        let f2 = PneumaticPipe {
            pressure: pressure_after_volume_change(
                from.pressure as int,
                from.volume as int,
                -vol,
            ) as i64,
            ..from
        };
        let t2 = PneumaticPipe {
            pressure: pressure_after_volume_change(to.pressure as int, to.volume as int, vol) as i64,
            temperature: clamp(
                to.temperature + mixed_temperature_delta(
                    from.temperature as int,
                    to.temperature as int,
                    vol,
                    to.volume as int,
                ),
                TEMP_MIN_MC as int,
                TEMP_MAX_MC as int,
            ) as i64,
            ..to
        };
        (f2, t2)
    } else {
        let vol = valve_transfer_volume(
            to.pressure - from.pressure,
            to.volume as int,
            open_pm,
            dc16,
        );
        let t2 = PneumaticPipe {
            pressure: pressure_after_volume_change(to.pressure as int, to.volume as int, -vol) as i64,
            ..to
        };
        let f2 = PneumaticPipe {
            pressure: pressure_after_volume_change(
                from.pressure as int,
                from.volume as int,
                vol,
            ) as i64,
            temperature: clamp(
                from.temperature + mixed_temperature_delta(
                    to.temperature as int,
                    from.temperature as int,
                    vol,
                    from.volume as int,
                ),
                TEMP_MIN_MC as int,
                TEMP_MAX_MC as int,
            ) as i64,
            ..from
        };
        (f2, t2)
    }
}

/// The staged transfer volume never exceeds the equalisation volume.
pub proof fn lemma_valve_transfer_volume_bounds(
    gap_abs: int,
    v_from: int,
    open_pm: int,
    dc16: int,
)
    requires
        0 <= gap_abs <= PRESSURE_MAX_MPSI,
        1 <= v_from <= VOLUME_MAX_ML,
        0 <= open_pm <= 1000,
        0 <= dc16 <= FRAC16_ONE,
    ensures
        0 <= valve_transfer_volume(gap_abs, v_from, open_pm, dc16) <= gap_abs * v_from / (
        STIFFNESS_MPSI as int),
        gap_abs * v_from / (STIFFNESS_MPSI as int) < VOLUME_DELTA_MAX_ML,
{
    let k = STIFFNESS_MPSI as int;
    let eq = gap_abs * v_from / k;
    let t1 = eq * open_pm / 1000;
    assert(0 <= gap_abs * v_from <= PRESSURE_MAX_MPSI * VOLUME_MAX_ML) by (nonlinear_arith)
        requires
            0 <= gap_abs <= PRESSURE_MAX_MPSI,
            1 <= v_from <= VOLUME_MAX_ML,
    ;
    assert(0 <= eq < VOLUME_DELTA_MAX_ML) by (nonlinear_arith)
        requires
            0 <= gap_abs * v_from <= PRESSURE_MAX_MPSI * VOLUME_MAX_ML,
            eq == gap_abs * v_from / k,
            k == STIFFNESS_MPSI as int,
    ;
    assert(0 <= t1 <= eq) by (nonlinear_arith)
        requires
            0 <= eq,
            0 <= open_pm <= 1000,
            t1 == eq * open_pm / 1000,
    ;
    assert(0 <= t1 * dc16 / (FRAC16_ONE as int) <= t1) by (nonlinear_arith)
        requires
            0 <= t1,
            0 <= dc16 <= FRAC16_ONE,
    ;
}

/// A controllable valve between two containers; its open amount is set
/// each tick from a controller signal.
pub struct DefaultValve {
    pub open_amount: u16,
}

impl DefaultValve {
    pub open spec fn wf(self) -> bool {
        self.open_amount <= 1000
    }

    pub fn new_closed() -> (r: Self)
        ensures
            r.wf(),
            r.open_amount == 0,
    {
        DefaultValve { open_amount: 0 }
    }

    pub fn new_open() -> (r: Self)
        ensures
            r.wf(),
            r.open_amount == 1000,
    {
        DefaultValve { open_amount: 1000 }
    }

    pub fn is_open(&self) -> (r: bool)
        ensures
            r == (self.open_amount > 0),
    {
        self.open_amount > 0
    }

    pub fn open_amount(&self) -> (r: u16)
        ensures
            r == self.open_amount,
    {
        self.open_amount
    }

    /// Takes the target open amount from this tick's controller signal.
    pub fn update_open_amount(&mut self, target_pm: u16)
        requires
            target_pm <= 1000,
        ensures
            final(self).wf(),
            final(self).open_amount == target_pm,
    {
        self.open_amount = target_pm;
    }

    /// Moves fluid from the higher-pressure container to the other for one
    /// tick, together with a temperature-weighted quantity: the receiving
    /// container's temperature moves toward the donor's in proportion to
    /// the transferred volume.
    pub fn update_move_fluid_with_temperature(
        &self,
        dt_ms: u64,
        from: &mut PneumaticPipe,
        to: &mut PneumaticPipe,
    )
        requires
            self.wf(),
            old(from).wf(),
            old(to).wf(),
            dt_ms <= MAX_TICK_MS,
        ensures
            final(from).wf(),
            final(to).wf(),
            final(from).spec_volume() == old(from).spec_volume(),
            final(to).spec_volume() == old(to).spec_volume(),
            ({
                let (f2, t2) = valve_move_with_temp(
                    self.open_amount as int,
                    dt_ms as nat,
                    *old(from),
                    *old(to),
                );
                *final(from) == f2 && *final(to) == t2
            }),
    {
        let retained: u64 = decay_pow(TRANSFER_DECAY_PER_MS, dt_ms);
        let dc16: i64 = ((FRAC_ONE - retained) / (FRAC16_ONE as u64)) as i64;
        proof {
            lemma_transfer_decay_complement_bounds(dt_ms as nat);
        }
        if from.pressure >= to.pressure {
            let gap: i64 = from.pressure - to.pressure;
            let vol: i64 = Self::transfer_volume(gap, from.volume, self.open_amount, dc16);
            let tgap: i64 = from.temperature - to.temperature;
            let v_to: i64 = to.volume;
            from.change_volume(-vol);
            to.change_volume(vol);
            let dtemp: i64 = Self::temperature_delta(tgap, vol, v_to);
            to.update_temperature(dtemp);
        } else {
            let gap: i64 = to.pressure - from.pressure;
            let vol: i64 = Self::transfer_volume(gap, to.volume, self.open_amount, dc16);
            let tgap: i64 = to.temperature - from.temperature;
            let v_from: i64 = from.volume;
            to.change_volume(-vol);
            from.change_volume(vol);
            let dtemp: i64 = Self::temperature_delta(tgap, vol, v_from);
            from.update_temperature(dtemp);
        }
    }

    /// Staged computation of the transferred volume.
    fn transfer_volume(gap_abs: i64, v_from: i64, open_pm: u16, dc16: i64) -> (vol: i64)
        requires
            0 <= gap_abs <= PRESSURE_MAX_MPSI,
            1 <= v_from <= VOLUME_MAX_ML,
            open_pm <= 1000,
            0 <= dc16 <= FRAC16_ONE,
        ensures
            vol == valve_transfer_volume(gap_abs as int, v_from as int, open_pm as int, dc16 as int),
            0 <= vol < VOLUME_DELTA_MAX_ML,
    {
        proof {
            lemma_valve_transfer_volume_bounds(
                gap_abs as int,
                v_from as int,
                open_pm as int,
                dc16 as int,
            );
            assert(0 <= gap_abs * v_from <= PRESSURE_MAX_MPSI * VOLUME_MAX_ML) by (nonlinear_arith)
                requires
                    0 <= gap_abs <= PRESSURE_MAX_MPSI,
                    1 <= v_from <= VOLUME_MAX_ML,
            ;
        }
        let eq: i64 = gap_abs * v_from / STIFFNESS_MPSI;
        proof {
            assert(0 <= eq * (open_pm as i64) <= eq * 1000) by (nonlinear_arith)
                requires
                    0 <= eq,
                    0 <= open_pm <= 1000,
            ;
        }
        let t1: i64 = eq * (open_pm as i64) / 1000;
        proof {
            assert(0 <= t1 <= eq) by (nonlinear_arith)
                requires
                    0 <= eq,
                    0 <= open_pm <= 1000,
                    t1 == eq * (open_pm as i64) / 1000,
            ;
            assert(0 <= t1 * dc16 <= t1 * FRAC16_ONE) by (nonlinear_arith)
                requires
                    0 <= t1,
                    0 <= dc16 <= FRAC16_ONE,
            ;
        }
        t1 * dc16 / FRAC16_ONE
    }

    /// Staged computation of the receiver's temperature delta.
    fn temperature_delta(tgap: i64, vol_abs: i64, v_receiver: i64) -> (dtemp: i64)
        requires
            -2_000_000 <= tgap <= 2_000_000,
            0 <= vol_abs < VOLUME_DELTA_MAX_ML,
            1 <= v_receiver <= VOLUME_MAX_ML,
        ensures
            dtemp == mixed_temperature_delta(tgap as int, 0, vol_abs as int, v_receiver as int),
            -2_000_000_000_000_000 <= dtemp <= 2_000_000_000_000_000,
    {
        if tgap >= 0 {
            proof {
                assert(0 <= tgap * vol_abs <= 2_000_000 * (VOLUME_DELTA_MAX_ML as int))
                    by (nonlinear_arith)
                    requires
                        0 <= tgap <= 2_000_000,
                        0 <= vol_abs <= VOLUME_DELTA_MAX_ML,
                ;
                assert(tgap * vol_abs / (v_receiver as int) <= tgap * vol_abs) by (nonlinear_arith)
                    requires
                        0 <= tgap * vol_abs,
                        1 <= v_receiver,
                ;
            }
            tgap * vol_abs / v_receiver
        } else {
            proof {
                assert(0 <= (-tgap) * vol_abs <= 2_000_000 * (VOLUME_DELTA_MAX_ML as int))
                    by (nonlinear_arith)
                    requires
                        0 <= -tgap <= 2_000_000,
                        0 <= vol_abs <= VOLUME_DELTA_MAX_ML,
                ;
                assert((-tgap) * vol_abs / (v_receiver as int) <= (-tgap) * vol_abs)
                    by (nonlinear_arith)
                    requires
                        0 <= (-tgap) * vol_abs,
                        1 <= v_receiver,
                ;
            }
            -((-tgap) * vol_abs / v_receiver)
        }
    }
}

} // verus!
