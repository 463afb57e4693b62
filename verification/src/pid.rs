//! Fixed-point proportional-integral-derivative regulator.
//!
//! Gains are permille weights applied to errors in milli-psi; the output is
//! a permille-scaled control value. Each of the three terms is clamped to
//! its own symmetric limit and the sum to the output limit, and the
//! derivative acts on the measurement rather than the error so that
//! setpoint changes do not kick the output.

use vstd::prelude::*;

verus! {

/// Largest magnitude accepted for a measurement or setpoint, in milli-psi.
pub const PID_VALUE_MAX: i64 = 10_000_000;

/// Largest accepted gain or term limit, in permille.
pub const PID_GAIN_MAX: i64 = 1_000_000;

pub open spec fn clamp_sym(x: int, limit: int) -> int {
    if x > limit {
        limit
    } else if x < -limit {
        -limit
    } else {
        x
    }
}

/// Permille scaling, rounded toward zero.
pub open spec fn scale_milli(x: int) -> int {
    if x >= 0 {
        x / 1000
    } else {
        -(-x / 1000)
    }
}

pub struct PidController {
    /// Proportional gain, permille of output per milli-psi of error.
    pub kp_milli: i64,
    /// Integral gain, permille of output per milli-psi of accumulated error.
    pub ki_milli: i64,
    /// Derivative gain, permille of output per milli-psi of measurement change.
    pub kd_milli: i64,
    /// Symmetric limit of the proportional term.
    pub p_limit: i64,
    /// Symmetric limit of the integral term.
    pub i_limit: i64,
    /// Symmetric limit of the derivative term.
    pub d_limit: i64,
    /// Symmetric limit of the summed output.
    pub output_limit: i64,
    /// Pressure setpoint the regulator drives toward, in milli-psi.
    pub setpoint: i64,
    /// Accumulated integral term, kept within its limit.
    pub integral_term: i64,
    /// Measurement seen by the previous iteration, if any.
    pub prev_measurement: Option<i64>,
}

/// The error the regulator acts on.
pub open spec fn pid_error(c: PidController, measurement: int) -> int {
    c.setpoint - measurement
}

/// Proportional term: gain times error, clamped.
pub open spec fn pid_p_term(c: PidController, measurement: int) -> int {
    clamp_sym(scale_milli(c.kp_milli * pid_error(c, measurement)), c.p_limit as int)
}

/// Integral term after this iteration: the previous accumulation plus gain
/// times error, clamped to mitigate windup.
pub open spec fn pid_i_term(c: PidController, measurement: int) -> int {
    clamp_sym(
        c.integral_term + scale_milli(c.ki_milli * pid_error(c, measurement)),
        c.i_limit as int,
    )
}

/// Derivative term: gain times the negated measurement change, clamped;
/// zero on the first iteration.
pub open spec fn pid_d_term(c: PidController, measurement: int) -> int {
    match c.prev_measurement {
        Some(prev) => clamp_sym(
            -scale_milli(c.kd_milli * (measurement - prev)),
            c.d_limit as int,
        ),
        None => clamp_sym(0, c.d_limit as int),
    }
}

/// The control output: the three terms summed and clamped.
pub open spec fn pid_output(c: PidController, measurement: int) -> int {
    clamp_sym(
        pid_p_term(c, measurement) + pid_i_term(c, measurement) + pid_d_term(c, measurement),
        c.output_limit as int,
    )
}

impl PidController {
    pub open spec fn wf(self) -> bool {
        &&& 0 <= self.kp_milli <= PID_GAIN_MAX
        &&& 0 <= self.ki_milli <= PID_GAIN_MAX
        &&& 0 <= self.kd_milli <= PID_GAIN_MAX
        &&& 0 <= self.p_limit <= PID_GAIN_MAX
        &&& 0 <= self.i_limit <= PID_GAIN_MAX
        &&& 0 <= self.d_limit <= PID_GAIN_MAX
        &&& 0 <= self.output_limit <= PID_GAIN_MAX
        &&& -PID_VALUE_MAX <= self.setpoint <= PID_VALUE_MAX
        &&& -self.i_limit <= self.integral_term <= self.i_limit
        &&& match self.prev_measurement {
            Some(prev) => -PID_VALUE_MAX <= prev <= PID_VALUE_MAX,
            None => true,
        }
    }

    pub fn new(
        kp_milli: i64,
        ki_milli: i64,
        kd_milli: i64,
        p_limit: i64,
        i_limit: i64,
        d_limit: i64,
        output_limit: i64,
        setpoint: i64,
    ) -> (r: Self)
        requires
            0 <= kp_milli <= PID_GAIN_MAX,
            0 <= ki_milli <= PID_GAIN_MAX,
            0 <= kd_milli <= PID_GAIN_MAX,
            0 <= p_limit <= PID_GAIN_MAX,
            0 <= i_limit <= PID_GAIN_MAX,
            0 <= d_limit <= PID_GAIN_MAX,
            0 <= output_limit <= PID_GAIN_MAX,
            -PID_VALUE_MAX <= setpoint <= PID_VALUE_MAX,
        ensures
            r.wf(),
            r.kp_milli == kp_milli,
            r.ki_milli == ki_milli,
            r.kd_milli == kd_milli,
            r.p_limit == p_limit,
            r.i_limit == i_limit,
            r.d_limit == d_limit,
            r.output_limit == output_limit,
            r.setpoint == setpoint,
            r.integral_term == 0,
            r.prev_measurement is None,
    {
        PidController {
            kp_milli,
            ki_milli,
            kd_milli,
            p_limit,
            i_limit,
            d_limit,
            output_limit,
            setpoint,
            integral_term: 0,
            prev_measurement: None,
        }
    }

    /// One regulator iteration on a new measurement: updates the integral
    /// accumulation and the remembered measurement, and returns the
    /// clamped control output.
    pub fn next_control_output(&mut self, measurement: i64) -> (output: i64)
        requires
            old(self).wf(),
            -PID_VALUE_MAX <= measurement <= PID_VALUE_MAX,
        ensures
            final(self).wf(),
            output == pid_output(*old(self), measurement as int),
            -old(self).output_limit <= output <= old(self).output_limit,
            final(self).integral_term == pid_i_term(*old(self), measurement as int),
            final(self).prev_measurement == Some(measurement),
            final(self).kp_milli == old(self).kp_milli,
            final(self).ki_milli == old(self).ki_milli,
            final(self).kd_milli == old(self).kd_milli,
            final(self).p_limit == old(self).p_limit,
            final(self).i_limit == old(self).i_limit,
            final(self).d_limit == old(self).d_limit,
            final(self).output_limit == old(self).output_limit,
            final(self).setpoint == old(self).setpoint,
    {
        let error: i64 = self.setpoint - measurement;
        let p: i64 = Self::clamp_to(Self::milli_product(self.kp_milli, error), self.p_limit);
        let i_raw: i64 = self.integral_term + Self::milli_product(self.ki_milli, error);
        let i: i64 = Self::clamp_to(i_raw, self.i_limit);
        self.integral_term = i;
        let d_unbounded: i64 = match self.prev_measurement {
            Some(prev) => -Self::milli_product(self.kd_milli, measurement - prev),
            None => 0,
        };
        let d: i64 = Self::clamp_to(d_unbounded, self.d_limit);
        self.prev_measurement = Some(measurement);
        Self::clamp_to(p + i + d, self.output_limit)
    }

    /// `gain * value / 1000`, rounded toward zero.
    fn milli_product(gain: i64, value: i64) -> (r: i64)
        requires
            0 <= gain <= PID_GAIN_MAX,
            -4 * PID_VALUE_MAX <= value <= 4 * PID_VALUE_MAX,
        ensures
            r == scale_milli(gain * value),
            -PID_GAIN_MAX * 4 * PID_VALUE_MAX <= r <= PID_GAIN_MAX * 4 * PID_VALUE_MAX,
    {
        if value >= 0 {
            proof {
                assert(0 <= gain * value <= PID_GAIN_MAX * 4 * PID_VALUE_MAX) by (nonlinear_arith)
                    requires
                        0 <= gain <= PID_GAIN_MAX,
                        0 <= value <= 4 * PID_VALUE_MAX,
                ;
            }
            gain * value / 1000
        } else {
            proof {
                assert(0 <= gain * -value <= PID_GAIN_MAX * 4 * PID_VALUE_MAX) by (nonlinear_arith)
                    requires
                        0 <= gain <= PID_GAIN_MAX,
                        0 <= -value <= 4 * PID_VALUE_MAX,
                ;
                assert(gain * -value == -(gain * value)) by (nonlinear_arith);
            }
            -(gain * -value / 1000)
        }
    }

    /// Clamps to a symmetric limit.
    fn clamp_to(x: i64, limit: i64) -> (r: i64)
        requires
            0 <= limit <= PID_GAIN_MAX,
            -9_000_000_000_000_000_000 + PID_GAIN_MAX <= x,
            x <= 9_000_000_000_000_000_000 - PID_GAIN_MAX,
        ensures
            r == clamp_sym(x as int, limit as int),
            -limit <= r <= limit,
    {
        if x > limit {
            limit
        } else if x < -limit {
            -limit
        } else {
            x
        }
    }
}

} // verus!
