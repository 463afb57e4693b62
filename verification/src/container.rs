//! Fixed-volume gas containers.
//!
//! A container holds a pressure, a temperature and a fixed volume of gas.
//! Moving a volume `dv` of fluid in or out changes the stored pressure by
//! `STIFFNESS * dv / volume`, the linearised ideal-gas relation: moving in
//! exactly the equalisation volume `(p - p_ref) * volume / STIFFNESS`
//! brings the pressure to `p_ref`.

use vstd::prelude::*;

verus! {

/// Fluid stiffness constant relating moved volume to pressure change,
/// in milli-psi (142 kPa).
pub const STIFFNESS_MPSI: i64 = 20_595;

/// Pressures are clamped to `[0, PRESSURE_MAX_MPSI]` (1000 psi).
pub const PRESSURE_MAX_MPSI: i64 = 1_000_000;

/// Temperatures are clamped to `[TEMP_MIN_MC, TEMP_MAX_MC]` milli-Celsius.
pub const TEMP_MIN_MC: i64 = -273_150;

/// Upper temperature clamp, in milli-degrees Celsius.
pub const TEMP_MAX_MC: i64 = 1_000_000;

/// Largest container volume, in millilitres (10 cubic metres).
pub const VOLUME_MAX_ML: i64 = 10_000_000;

/// Largest volume that one transfer may move, in millilitres.
pub const VOLUME_DELTA_MAX_ML: i64 = 1_000_000_000;

pub open spec fn clamp(x: int, lo: int, hi: int) -> int {
    if x < lo {
        lo
    } else if x > hi {
        hi
    } else {
        x
    }
}

/// Pressure change caused by moving a fluid volume `dv` into a container
/// of volume `v`, rounded toward zero.
pub open spec fn volume_to_pressure_delta(dv: int, v: int) -> int {
    if dv >= 0 {
        STIFFNESS_MPSI * dv / v
    } else {
        -(STIFFNESS_MPSI * -dv / v)
    }
}

/// Pressure after moving `dv` of fluid into a container at pressure `p`
/// with volume `v`, clamped at the physical bounds.
pub open spec fn pressure_after_volume_change(p: int, v: int, dv: int) -> int {
    clamp(p + volume_to_pressure_delta(dv, v), 0, PRESSURE_MAX_MPSI as int)
}

/// A fixed-volume gas reservoir: the shared model behind pipes and
/// consumers. Pressure in milli-psi, volume in millilitres, temperature
/// in milli-degrees Celsius.
pub struct PneumaticPipe {
    pub pressure: i64,
    pub volume: i64,
    pub temperature: i64,
}

impl PneumaticPipe {
    /// All stored quantities stay inside their physical bounds.
    pub open spec fn wf(self) -> bool {
        &&& 0 <= self.pressure <= PRESSURE_MAX_MPSI
        &&& 1 <= self.volume <= VOLUME_MAX_ML
        &&& TEMP_MIN_MC <= self.temperature <= TEMP_MAX_MC
    }

    pub open spec fn spec_pressure(self) -> int {
        self.pressure as int
    }

    pub open spec fn spec_volume(self) -> int {
        self.volume as int
    }

    pub open spec fn spec_temperature(self) -> int {
        self.temperature as int
    }

    pub fn new(volume_ml: i64, pressure_mpsi: i64, temperature_mc: i64) -> (r: Self)
        requires
            1 <= volume_ml <= VOLUME_MAX_ML,
            0 <= pressure_mpsi <= PRESSURE_MAX_MPSI,
            TEMP_MIN_MC <= temperature_mc <= TEMP_MAX_MC,
        ensures
            r.wf(),
            r.spec_pressure() == pressure_mpsi,
            r.spec_volume() == volume_ml,
            r.spec_temperature() == temperature_mc,
    {
        PneumaticPipe { pressure: pressure_mpsi, volume: volume_ml, temperature: temperature_mc }
    }

    pub fn pressure(&self) -> (p: i64)
        ensures
            p == self.spec_pressure(),
    {
        self.pressure
    }

    pub fn volume(&self) -> (v: i64)
        ensures
            v == self.spec_volume(),
    {
        self.volume
    }

    pub fn temperature(&self) -> (t: i64)
        ensures
            t == self.spec_temperature(),
    {
        self.temperature
    }

    /// Moves a fluid volume `dv` (millilitres, negative to withdraw) in or
    /// out; the container volume itself is fixed, so only the pressure
    /// changes, by the linearised ideal-gas relation.
    pub fn change_volume(&mut self, dv_ml: i64)
        requires
            old(self).wf(),
            -VOLUME_DELTA_MAX_ML <= dv_ml <= VOLUME_DELTA_MAX_ML,
        ensures
            final(self).wf(),
            final(self).spec_pressure() == pressure_after_volume_change(
                old(self).spec_pressure(),
                old(self).spec_volume(),
                dv_ml as int,
            ),
            final(self).spec_volume() == old(self).spec_volume(),
            final(self).spec_temperature() == old(self).spec_temperature(),
    {
        self.update_pressure_only(dv_ml);
    }

    /// Applies the pressure change of moving `dv` without any further
    /// bookkeeping; used for displacement-only coupling.
    pub fn update_pressure_only(&mut self, dv_ml: i64)
        requires
            old(self).wf(),
            -VOLUME_DELTA_MAX_ML <= dv_ml <= VOLUME_DELTA_MAX_ML,
        ensures
            final(self).wf(),
            final(self).spec_pressure() == pressure_after_volume_change(
                old(self).spec_pressure(),
                old(self).spec_volume(),
                dv_ml as int,
            ),
            final(self).spec_volume() == old(self).spec_volume(),
            final(self).spec_temperature() == old(self).spec_temperature(),
    {
        let delta: i64 = if dv_ml >= 0 {
            STIFFNESS_MPSI * dv_ml / self.volume
        } else {
            -(STIFFNESS_MPSI * -dv_ml / self.volume)
        };
        let raw: i64 = if dv_ml >= 0 {
            proof {
                assert(0 <= STIFFNESS_MPSI * dv_ml <= STIFFNESS_MPSI * VOLUME_DELTA_MAX_ML)
                    by (nonlinear_arith)
                    requires
                        0 <= dv_ml <= VOLUME_DELTA_MAX_ML,
                ;
                assert(STIFFNESS_MPSI * dv_ml / (self.volume as int) <= STIFFNESS_MPSI * dv_ml)
                    by (nonlinear_arith)
                    requires
                        0 <= STIFFNESS_MPSI * dv_ml,
                        1 <= self.volume,
                ;
            }
            self.pressure + delta
        } else {
            proof {
                assert(0 <= STIFFNESS_MPSI * -dv_ml <= STIFFNESS_MPSI * VOLUME_DELTA_MAX_ML)
                    by (nonlinear_arith)
                    requires
                        0 <= -dv_ml <= VOLUME_DELTA_MAX_ML,
                ;
                assert(STIFFNESS_MPSI * -dv_ml / (self.volume as int) <= STIFFNESS_MPSI * -dv_ml)
                    by (nonlinear_arith)
                    requires
                        0 <= STIFFNESS_MPSI * -dv_ml,
                        1 <= self.volume,
                ;
            }
            self.pressure + delta
        };
        self.pressure = if raw < 0 {
            0
        } else if raw > PRESSURE_MAX_MPSI {
            PRESSURE_MAX_MPSI
        } else {
            raw
        };
    }

    /// Adds a temperature delta (milli-degrees Celsius), clamped at the
    /// physical bounds.
    pub fn update_temperature(&mut self, dt_mc: i64)
        requires
            old(self).wf(),
            -2_000_000_000_000_000 <= dt_mc <= 2_000_000_000_000_000,
        ensures
            final(self).wf(),
            final(self).spec_temperature() == clamp(
                old(self).spec_temperature() + dt_mc,
                TEMP_MIN_MC as int,
                TEMP_MAX_MC as int,
            ),
            final(self).spec_pressure() == old(self).spec_pressure(),
            final(self).spec_volume() == old(self).spec_volume(),
    {
        let raw: i64 = self.temperature + dt_mc;
        self.temperature = if raw < TEMP_MIN_MC {
            TEMP_MIN_MC
        } else if raw > TEMP_MAX_MC {
            TEMP_MAX_MC
        } else {
            raw
        };
    }
}

} // verus!
