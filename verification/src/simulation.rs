//! The simulation framework's boundary, re-modeled as explicit values: the
//! construction-time element registry, the per-tick context, and the
//! state-visitation pass that exposes each element's observable state in a
//! deterministic child-before-parent order.

use vstd::prelude::*;

use crate::radio_altimeter::AntennaInstallation;
use crate::shared::ElectricalBusType;

verus! {

/// One entry of the simulation's element registry: a simulation element that
/// announced itself during construction so that the framework can drive it.
#[derive(Clone, Copy, Debug, PartialEq, Eq, Structural)]
pub enum RegisteredElement {
    /// A radio-altimeter transceiver unit, identified by its channel number.
    RadioAltimeter { number: usize },
    /// A transmit/receive antenna pair, identified by its installations.
    TransceiverPair { transmitter: AntennaInstallation, receiver: AntennaInstallation },
}

/// The construction-time context handed to every element constructor: it
/// carries the simulation's element registry, to which each constructed
/// element adds itself.
pub struct InitContext {
    registered: Vec<RegisteredElement>,
}

impl View for InitContext {
    type V = Seq<RegisteredElement>;

    closed spec fn view(&self) -> Seq<RegisteredElement> {
        self.registered@
    }
}

impl InitContext {
    /// A fresh context with an empty element registry.
    pub fn new() -> (r: Self)
        ensures
            r@ == Seq::<RegisteredElement>::empty(),
    {
        InitContext { registered: Vec::new() }
    }

    /// Appends one element to the registry.
    pub fn register(&mut self, element: RegisteredElement)
        ensures
            final(self)@ == old(self)@.push(element),
    {
        self.registered.push(element);
    }

    /// The elements registered so far, in registration order.
    pub fn registered_elements(&self) -> (r: &Vec<RegisteredElement>)
        ensures
            r@ == self@,
    {
        &self.registered
    }
}

/// The mathematical content of a tick context: the simulation time of the
/// tick and which electrical buses are energized during it.
#[verifier::ext_equal]
pub ghost struct UpdateContextView {
    pub time_millis: u64,
    pub energized_buses: Seq<ElectricalBusType>,
}

/// The per-tick data supplied by the enclosing simulation to every element's
/// update call: the simulation time of the tick and the set of electrical
/// buses that are energized during it.
pub struct UpdateContext {
    time_millis: u64,
    energized_buses: Vec<ElectricalBusType>,
}

impl View for UpdateContext {
    type V = UpdateContextView;

    closed spec fn view(&self) -> UpdateContextView {
        UpdateContextView { time_millis: self.time_millis, energized_buses: self.energized_buses@ }
    }
}

impl UpdateContext {
    /// Builds the context of one tick.
    pub fn new(time_millis: u64, energized_buses: Vec<ElectricalBusType>) -> (r: Self)
        ensures
            r@ == (UpdateContextView { time_millis, energized_buses: energized_buses@ }),
    {
        UpdateContext { time_millis, energized_buses }
    }

    /// The simulation time of this tick, in milliseconds.
    pub fn time_millis(&self) -> (r: u64)
        ensures
            r == self@.time_millis,
    {
        self.time_millis
    }

    /// Whether the given bus is energized during this tick.
    pub fn is_powered(&self, bus: ElectricalBusType) -> (r: bool)
        ensures
            r == self@.energized_buses.contains(bus),
    {
        let mut i: usize = 0;
        while i < self.energized_buses.len()
            invariant
                0 <= i <= self.energized_buses.len(),
                forall|k: int| 0 <= k < i ==> self.energized_buses@[k] != bus,
            decreases self.energized_buses.len() - i,
        {
            if self.energized_buses[i] == bus {
                return true;
            }
            i += 1;
        }
        false
    }
}

/// The state contribution one element hands to a visitation pass.
#[derive(Clone, Copy, Debug, PartialEq, Eq, Structural)]
pub enum VisitedElement {
    /// An antenna pair exposes its two installations.
    TransceiverPair { transmitter: AntennaInstallation, receiver: AntennaInstallation },
    /// A transceiver unit exposes its channel number, how many ticks it has
    /// processed, and whether its bus was energized at the last tick.
    RadioAltimeter { number: usize, update_count: usize, receiving_power: bool },
    /// One altimeter channel as a whole, identified by its number.
    AltimeterChannel { number: usize },
    /// The two-channel subsystem itself.
    RadioAltimeterSubsystem,
}

/// Walks the simulation's element tree and collects each element's state
/// contribution, in the order in which the elements present themselves.
pub struct SimulationVisitor {
    visited: Vec<VisitedElement>,
}

impl View for SimulationVisitor {
    type V = Seq<VisitedElement>;

    closed spec fn view(&self) -> Seq<VisitedElement> {
        self.visited@
    }
}

impl SimulationVisitor {
    /// A fresh visitor that has seen nothing yet.
    pub fn new() -> (r: Self)
        ensures
            r@ == Seq::<VisitedElement>::empty(),
    {
        SimulationVisitor { visited: Vec::new() }
    }

    /// Records one element's state contribution.
    pub fn visit(&mut self, element: VisitedElement)
        ensures
            final(self)@ == old(self)@.push(element),
    {
        self.visited.push(element);
    }

    /// Every contribution collected so far, in visitation order.
    pub fn visited_elements(&self) -> (r: &Vec<VisitedElement>)
        ensures
            r@ == self@,
    {
        &self.visited
    }
}

} // verus!
