//! Discrete-time simulation of an aircraft's pneumatic and slat/flap control
//! systems: a container/valve/exhaust pressure-volume-temperature model, a
//! flap/slat hydraulic-motor-driven position servo, and the handle-to-
//! configuration state machine for commanded flap/slat positions.
//!
//! All physical quantities are held as scaled integers so that every update
//! equation is exact and provable:
//!
//! - pressure: milli-psi (`1000` = 1 psi)
//! - temperature: milli-degrees Celsius
//! - volume: millilitres
//! - angle: micro-degrees
//! - angular speed: micro-degrees per second, or milli-RPM for motors
//! - time: milliseconds
//! - valve open amounts and other ratios: permille (`1000` = fully open)
//! - exponential-decay factors: Q32 fractions (`2^32` = 1)

pub mod container;
pub mod decay;
pub mod flap_slat;
pub mod flaps_computer;
pub mod pid;
pub mod valve;
pub mod wing_anti_ice;

pub use decay::FRAC_ONE;
pub use decay::MAX_TICK_MS;
