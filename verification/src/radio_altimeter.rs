//! Antenna installation geometry: where an antenna is mounted relative to the
//! simulation's center-of-gravity reference, and the electric-length timing
//! correction of its cabling.

use vstd::prelude::*;

verus! {

/// A signed length in whole nanometers.
///
/// One nanometer is fine enough that every calibration constant of the
/// aircraft models served by this crate (given in feet or meters with at most
/// three decimals) is represented exactly: one foot is exactly 304 800 000
/// nanometers and one meter is exactly 1 000 000 000.
#[derive(Clone, Copy, Debug, PartialEq, Eq, Structural)]
pub struct Length {
    pub nanometers: i64,
}

impl Length {
    /// Builds a length from a whole number of nanometers.
    pub fn from_nanometers(nanometers: i64) -> (r: Self)
        ensures
            r.nanometers == nanometers,
    {
        Length { nanometers }
    }
}

/// The fixed geometric and electrical calibration of one mounted antenna.
///
/// The two offsets place the antenna relative to the simulation's
/// center-of-gravity reference; the electric length is an effective length,
/// distinct from any physical separation, that models cable and connector
/// propagation effects biasing timing-derived distance. The values are
/// calibration data supplied by an aircraft model: they are taken as given and
/// never validated against physical plausibility.
#[derive(Clone, Copy, Debug, PartialEq, Eq, Structural)]
pub struct AntennaInstallation {
    /// Offset from the center-of-gravity reference to the antenna, accounting
    /// for mounting height above the ground-contact reference.
    pub vertical_offset: Length,
    /// Fore/aft distance from the center-of-gravity reference.
    pub longitudinal_offset: Length,
    /// Effective cable and material propagation length.
    pub electric_length: Length,
}

impl AntennaInstallation {
    /// Builds an immutable antenna installation from its three calibration
    /// lengths.
    pub fn new(vertical_offset: Length, longitudinal_offset: Length, electric_length: Length) -> (r: Self)
        ensures
            r == (AntennaInstallation { vertical_offset, longitudinal_offset, electric_length }),
    {
        AntennaInstallation { vertical_offset, longitudinal_offset, electric_length }
    }
}

} // verus!
