//! Slat/flap control computer: maps handle lever transitions, with the
//! indicated airspeed as a side input, to one of six flap/slat
//! configurations, and each configuration to fixed target surface angles.
//!
//! Surface angles are in milli-degrees, airspeed in knots.

use vstd::prelude::*;

verus! {

/// Two configurations count as equal targets when their angles differ by
/// no more than this, in milli-degrees (0.01 degrees).
pub const EQUAL_ANGLE_DELTA_MDEG: i64 = 10;

/// Below or at this airspeed, moving the handle from 0 to 1 selects the
/// flaps-extended Conf1F; above it, Conf1.
pub const HANDLE_ONE_CONF_AIRSPEED_THRESHOLD_KT: i64 = 100;

/// Above this airspeed a configuration at handle position 1 resolves to
/// Conf1; below or at it, to Conf1F.
pub const CONF1F_TO_CONF1_AIRSPEED_THRESHOLD_KT: i64 = 210;

/// The six flap/slat configurations.
#[derive(Clone, Copy, Debug, PartialEq, Eq, Structural)]
pub enum FlapsConf {
    Conf0,
    Conf1,
    Conf1F,
    Conf2,
    Conf3,
    ConfFull,
}

/// Configuration selected by a raw index; out-of-range indices saturate to
/// the last configuration.
pub open spec fn conf_from_index(value: int) -> FlapsConf {
    if value == 0 {
        FlapsConf::Conf0
    } else if value == 1 {
        FlapsConf::Conf1
    } else if value == 2 {
        FlapsConf::Conf1F
    } else if value == 3 {
        FlapsConf::Conf2
    } else if value == 4 {
        FlapsConf::Conf3
    } else {
        FlapsConf::ConfFull
    }
}

impl From<usize> for FlapsConf {
    fn from(value: usize) -> (r: Self) {
        match value {
            0 => FlapsConf::Conf0,
            1 => FlapsConf::Conf1,
            2 => FlapsConf::Conf1F,
            3 => FlapsConf::Conf2,
            4 => FlapsConf::Conf3,
            _ => FlapsConf::ConfFull,
        }
    }
}

impl vstd::std_specs::convert::FromSpecImpl<usize> for FlapsConf {
    open spec fn obeys_from_spec() -> bool {
        true
    }

    open spec fn from_spec(v: usize) -> FlapsConf {
        conf_from_index(v as int)
    }
}

/// Target flap surface angle for a configuration, in milli-degrees.
pub open spec fn spec_target_flaps_angle(conf: FlapsConf) -> int {
    match conf {
        FlapsConf::Conf0 => 0,
        FlapsConf::Conf1 => 0,
        FlapsConf::Conf1F => 10_000,
        FlapsConf::Conf2 => 15_000,
        FlapsConf::Conf3 => 20_000,
        FlapsConf::ConfFull => 40_000,
    }
}

/// Target slat surface angle for a configuration, in milli-degrees.
pub open spec fn spec_target_slats_angle(conf: FlapsConf) -> int {
    match conf {
        FlapsConf::Conf0 => 0,
        FlapsConf::Conf1 => 18_000,
        FlapsConf::Conf1F => 18_000,
        FlapsConf::Conf2 => 22_000,
        FlapsConf::Conf3 => 22_000,
        FlapsConf::ConfFull => 27_000,
    }
}

/// Configuration change demanded by a handle transition at a given
/// airspeed: `None` leaves the configuration as it is. Transitions into
/// position 1 resolve between Conf1 and Conf1F on airspeed; transitions
/// into positions 2 and above look the target up directly, with no
/// intermediate steps even for multi-step jumps.
pub open spec fn spec_generate_configuration(
    airspeed_kt: int,
    transition: Option<(usize, usize)>,
) -> Option<FlapsConf> {
    match transition {
        Option::None => Option::None,
        Option::Some((from, to)) => {
            if from == 0 {
                if to == 1 {
                    if airspeed_kt <= HANDLE_ONE_CONF_AIRSPEED_THRESHOLD_KT {
                        Option::Some(FlapsConf::Conf1F)
                    } else {
                        Option::Some(FlapsConf::Conf1)
                    }
                } else if to == 0 {
                    Option::Some(FlapsConf::Conf0)
                } else {
                    Option::Some(conf_from_index(to + 1))
                }
            } else if from == 1 {
                if to == 1 {
                    if airspeed_kt > CONF1F_TO_CONF1_AIRSPEED_THRESHOLD_KT {
                        Option::Some(FlapsConf::Conf1)
                    } else {
                        Option::None
                    }
                } else if to == 0 {
                    Option::Some(FlapsConf::Conf0)
                } else {
                    Option::Some(conf_from_index(to + 1))
                }
            } else {
                if to == 1 {
                    if airspeed_kt <= CONF1F_TO_CONF1_AIRSPEED_THRESHOLD_KT {
                        Option::Some(FlapsConf::Conf1F)
                    } else {
                        Option::Some(FlapsConf::Conf1)
                    }
                } else if to == 0 {
                    Option::Some(FlapsConf::Conf0)
                } else {
                    Option::Some(conf_from_index(to + 1))
                }
            }
        },
    }
}

/// Holds the current and previous discrete handle lever position.
pub struct FlapsHandle {
    pub handle_position: usize,
    pub old_handle_position: usize,
}

impl FlapsHandle {
    pub fn new() -> (r: Self)
        ensures
            r.handle_position == 0,
            r.old_handle_position == 0,
    {
        FlapsHandle { handle_position: 0, old_handle_position: 0 }
    }

    /// Takes the lever position read from the operator's panel.
    pub fn set_handle_position(&mut self, position: usize)
        ensures
            final(self).handle_position == position,
            final(self).old_handle_position == old(self).old_handle_position,
    {
        self.handle_position = position;
    }

    /// The transition sampled this tick: the (previous, current) pair when
    /// the lever moved; a synthetic (1, 1) while it rests at position 1 so
    /// that the airspeed hysteresis is re-evaluated; nothing otherwise.
    pub fn signal_new_position(&self) -> (r: Option<(usize, usize)>)
        ensures
            self.handle_position == self.old_handle_position && self.handle_position == 1 ==> r
                == Some((1usize, 1usize)),
            self.handle_position == self.old_handle_position && self.handle_position != 1 ==> r
                is None,
            self.handle_position != self.old_handle_position ==> r == Some(
                (self.old_handle_position, self.handle_position),
            ),
    {
        if self.handle_position == self.old_handle_position {
            match self.handle_position {
                1 => Some((1, 1)),
                _ => None,
            }
        } else {
            Some((self.old_handle_position, self.handle_position))
        }
    }

    /// Resets the previous position to equal the current one.
    pub fn equilibrate_old_and_current(&mut self)
        ensures
            final(self).handle_position == old(self).handle_position,
            final(self).old_handle_position == old(self).handle_position,
    {
        self.old_handle_position = self.handle_position;
    }
}

/// The slat/flap control computer: resolves handle transitions into a
/// configuration and the configuration into demanded surface angles.
pub struct SlatFlapControlComputer {
    pub flaps_demanded_angle: i64,
    pub slats_demanded_angle: i64,
    pub flaps_conf: FlapsConf,
    pub indicated_airspeed: i64,
}

impl SlatFlapControlComputer {
    /// Demanded angles always come from the lookup table.
    pub open spec fn wf(self) -> bool {
        &&& self.flaps_demanded_angle == spec_target_flaps_angle(self.flaps_conf)
        &&& self.slats_demanded_angle == spec_target_slats_angle(self.flaps_conf)
    }

    pub fn new() -> (r: Self)
        ensures
            r.wf(),
            r.flaps_conf == FlapsConf::Conf0,
            r.flaps_demanded_angle == 0,
            r.slats_demanded_angle == 0,
            r.indicated_airspeed == 0,
    {
        SlatFlapControlComputer {
            flaps_demanded_angle: 0,
            slats_demanded_angle: 0,
            flaps_conf: FlapsConf::Conf0,
            indicated_airspeed: 0,
        }
    }

    /// Target flap surface angle for a configuration, in milli-degrees.
    pub fn target_flaps_angle_from_state(flap_state: FlapsConf) -> (r: i64)
        ensures
            r == spec_target_flaps_angle(flap_state),
    {
        match flap_state {
            FlapsConf::Conf0 => 0,
            FlapsConf::Conf1 => 0,
            FlapsConf::Conf1F => 10_000,
            FlapsConf::Conf2 => 15_000,
            FlapsConf::Conf3 => 20_000,
            FlapsConf::ConfFull => 40_000,
        }
    }

    /// Target slat surface angle for a configuration, in milli-degrees.
    pub fn target_slats_angle_from_state(flap_state: FlapsConf) -> (r: i64)
        ensures
            r == spec_target_slats_angle(flap_state),
    {
        match flap_state {
            FlapsConf::Conf0 => 0,
            FlapsConf::Conf1 => 18_000,
            FlapsConf::Conf1F => 18_000,
            FlapsConf::Conf2 => 22_000,
            FlapsConf::Conf3 => 22_000,
            FlapsConf::ConfFull => 27_000,
        }
    }

    /// Resolves a handle transition to a demanded configuration at the
    /// currently stored airspeed.
    pub fn generate_configuration(&self, handle_transition: Option<(usize, usize)>) -> (r: Option<
        FlapsConf,
    >)
        ensures
            r == spec_generate_configuration(self.indicated_airspeed as int, handle_transition),
    {
        if let Some((from, to)) = handle_transition {
            if from == 0 {
                if to == 1 {
                    if self.indicated_airspeed <= HANDLE_ONE_CONF_AIRSPEED_THRESHOLD_KT {
                        Some(FlapsConf::Conf1F)
                    } else {
                        Some(FlapsConf::Conf1)
                    }
                } else if to == 0 {
                    Some(FlapsConf::Conf0)
                } else {
                    Some(Self::conf_above_one(to))
                }
            } else if from == 1 {
                if to == 1 {
                    if self.indicated_airspeed > CONF1F_TO_CONF1_AIRSPEED_THRESHOLD_KT {
                        Some(FlapsConf::Conf1)
                    } else {
                        None
                    }
                } else if to == 0 {
                    Some(FlapsConf::Conf0)
                } else {
                    Some(Self::conf_above_one(to))
                }
            } else {
                if to == 1 {
                    if self.indicated_airspeed <= CONF1F_TO_CONF1_AIRSPEED_THRESHOLD_KT {
                        Some(FlapsConf::Conf1F)
                    } else {
                        Some(FlapsConf::Conf1)
                    }
                } else if to == 0 {
                    Some(FlapsConf::Conf0)
                } else {
                    Some(Self::conf_above_one(to))
                }
            }
        } else {
            None
        }
    }

    /// Direct lookup for handle positions 2 and above.
    fn conf_above_one(to: usize) -> (r: FlapsConf)
        requires
            to >= 2,
        ensures
            r == conf_from_index(to + 1),
    {
        match to {
            2 => FlapsConf::Conf2,
            3 => FlapsConf::Conf3,
            _ => FlapsConf::ConfFull,
        }
    }

    /// One tick: stores the airspeed, applies a demanded configuration
    /// change if the transition produces one, and recomputes the target
    /// angles from the configuration.
    pub fn update(&mut self, airspeed_kt: i64, handle_transition: Option<(usize, usize)>)
        ensures
            final(self).wf(),
            final(self).indicated_airspeed == airspeed_kt,
            final(self).flaps_conf == (match spec_generate_configuration(
                airspeed_kt as int,
                handle_transition,
            ) {
                Option::Some(c) => c,
                Option::None => old(self).flaps_conf,
            }),
    {
        self.indicated_airspeed = airspeed_kt;

        if let Some(new_config) = self.generate_configuration(handle_transition) {
            self.flaps_conf = new_config;
        }

        let flaps_target: i64 = Self::target_flaps_angle_from_state(self.flaps_conf);
        let slats_target: i64 = Self::target_slats_angle_from_state(self.flaps_conf);
        self.set_target_flaps_angle(flaps_target);
        self.set_target_slats_angle(slats_target);
    }

    fn set_target_flaps_angle(&mut self, angle: i64)
        ensures
            *final(self) == (SlatFlapControlComputer { flaps_demanded_angle: angle, ..*old(self) }),
    {
        self.flaps_demanded_angle = angle;
    }

    fn set_target_slats_angle(&mut self, angle: i64)
        ensures
            *final(self) == (SlatFlapControlComputer { slats_demanded_angle: angle, ..*old(self) }),
    {
        self.slats_demanded_angle = angle;
    }

    /// Demands flap movement to the target angle while the surface is not
    /// yet within the equality tolerance of it.
    pub fn signal_flap_movement(&self, position_feedback_mdeg: i64) -> (r: Option<i64>)
        requires
            self.wf(),
            -1_000_000_000 <= position_feedback_mdeg <= 1_000_000_000,
        ensures
            r is Some <==> (self.flaps_demanded_angle - position_feedback_mdeg
                > EQUAL_ANGLE_DELTA_MDEG || position_feedback_mdeg - self.flaps_demanded_angle
                > EQUAL_ANGLE_DELTA_MDEG),
            r is Some ==> r == Some(self.flaps_demanded_angle),
    {
        let diff: i64 = if self.flaps_demanded_angle >= position_feedback_mdeg {
            self.flaps_demanded_angle - position_feedback_mdeg
        } else {
            position_feedback_mdeg - self.flaps_demanded_angle
        };
        if diff > EQUAL_ANGLE_DELTA_MDEG {
            Some(self.flaps_demanded_angle)
        } else {
            None
        }
    }

    /// Demands slat movement to the target angle while the surface is not
    /// yet within the equality tolerance of it.
    pub fn signal_slat_movement(&self, position_feedback_mdeg: i64) -> (r: Option<i64>)
        requires
            self.wf(),
            -1_000_000_000 <= position_feedback_mdeg <= 1_000_000_000,
        ensures
            r is Some <==> (self.slats_demanded_angle - position_feedback_mdeg
                > EQUAL_ANGLE_DELTA_MDEG || position_feedback_mdeg - self.slats_demanded_angle
                > EQUAL_ANGLE_DELTA_MDEG),
            r is Some ==> r == Some(self.slats_demanded_angle),
    {
        let diff: i64 = if self.slats_demanded_angle >= position_feedback_mdeg {
            self.slats_demanded_angle - position_feedback_mdeg
        } else {
            position_feedback_mdeg - self.slats_demanded_angle
        };
        if diff > EQUAL_ANGLE_DELTA_MDEG {
            Some(self.slats_demanded_angle)
        } else {
            None
        }
    }
}

/// The computer together with its handle: one tick samples the handle
/// transition, feeds it to the computer, then equilibrates the handle.
pub struct SlatFlapControlComplex {
    pub sfcc: SlatFlapControlComputer,
    pub flaps_handle: FlapsHandle,
}

impl SlatFlapControlComplex {
    pub fn new() -> (r: Self)
        ensures
            r.sfcc.wf(),
            r.sfcc.flaps_conf == FlapsConf::Conf0,
            r.flaps_handle.handle_position == 0,
            r.flaps_handle.old_handle_position == 0,
    {
        SlatFlapControlComplex { sfcc: SlatFlapControlComputer::new(), flaps_handle: FlapsHandle::new() }
    }

    /// Takes the lever position read from the operator's panel.
    pub fn set_handle_position(&mut self, position: usize)
        ensures
            final(self).flaps_handle.handle_position == position,
            final(self).flaps_handle.old_handle_position == old(
                self,
            ).flaps_handle.old_handle_position,
            final(self).sfcc == old(self).sfcc,
    {
        self.flaps_handle.set_handle_position(position);
    }

    /// One tick at the given airspeed.
    pub fn update(&mut self, airspeed_kt: i64)
        ensures
            final(self).sfcc.wf(),
            final(self).sfcc.indicated_airspeed == airspeed_kt,
            final(self).sfcc.flaps_conf == (match spec_generate_configuration(
                airspeed_kt as int,
                spec_handle_transition(old(self).flaps_handle),
            ) {
                Option::Some(c) => c,
                Option::None => old(self).sfcc.flaps_conf,
            }),
            final(self).flaps_handle.handle_position == old(self).flaps_handle.handle_position,
            final(self).flaps_handle.old_handle_position == old(
                self,
            ).flaps_handle.handle_position,
    {
        let transition = self.flaps_handle.signal_new_position();
        self.sfcc.update(airspeed_kt, transition);
        self.flaps_handle.equilibrate_old_and_current();
    }

    pub fn sfcc(&self) -> (r: &SlatFlapControlComputer)
        ensures
            r == self.sfcc,
    {
        &self.sfcc
    }
}

/// The transition a handle reports for one tick.
pub open spec fn spec_handle_transition(h: FlapsHandle) -> Option<(usize, usize)> {
    if h.handle_position == h.old_handle_position {
        if h.handle_position == 1 {
            Option::Some((1usize, 1usize))
        } else {
            Option::None
        }
    } else {
        Option::Some((h.old_handle_position, h.handle_position))
    }
}

} // verus!
