//! Identifiers shared across aircraft systems: the electrical buses of the
//! aircraft's power distribution network.

use vstd::prelude::*;

verus! {

/// Identifies one electrical bus of the aircraft.
///
/// A channel of the altimeter subsystem is wired to exactly one bus, fixed at
/// construction; redundancy demands that the two channels of a pair never
/// share a bus. Whether a bus is energized on a given tick is the electrical
/// system's concern and reaches this crate only through the tick context.
#[derive(Clone, Copy, Debug, PartialEq, Eq, Structural)]
pub enum ElectricalBusType {
    AlternatingCurrent(u8),
    AlternatingCurrentEssential,
    DirectCurrent(u8),
    DirectCurrentEssential,
}

} // verus!
