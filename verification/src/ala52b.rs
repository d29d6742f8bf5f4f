//! The ALA-52B radio altimeter: one transceiver unit per channel, driven by a
//! transmit/receive antenna pair, a fixed installation-delay class, and a
//! dedicated electrical bus.
//!
//! The electromagnetic timing model that turns geometry into an altitude
//! reading lives outside this core; the transceiver here is the unit's
//! simulation-visible shell, and what it retains is exactly what the rest of
//! the simulation can observe of it: its fixed configuration, the ticks it has
//! processed in order, the antenna pair it was last driven with, and whether
//! its bus was energized at the last tick.

use vstd::prelude::*;

use crate::radio_altimeter::{AntennaInstallation, Length};
use crate::shared::ElectricalBusType;
use crate::simulation::{
    InitContext, RegisteredElement, SimulationVisitor, UpdateContext, UpdateContextView,
    VisitedElement,
};

verus! {

/// Nanometers in one foot.
pub const NANOMETERS_PER_FOOT: i64 = 304_800_000;

/// Fifty-seven feet, in nanometers.
pub const FIFTY_SEVEN_FEET_NANOMETERS: i64 = 57 * 304_800_000;

/// A discrete calibration class: a fixed, hardware-family-level timing bias
/// applied uniformly regardless of per-aircraft antenna placement.
#[derive(Clone, Copy, Debug, PartialEq, Eq, Structural)]
pub enum Ala52BAircraftInstallationDelay {
    /// A nominal delay equivalent to fifty-seven feet of signal travel.
    FiftySevenFeet,
}

impl Ala52BAircraftInstallationDelay {
    /// The length equivalent of this delay class.
    pub open spec fn spec_delay_length(self) -> Length {
        match self {
            Ala52BAircraftInstallationDelay::FiftySevenFeet => Length {
                nanometers: FIFTY_SEVEN_FEET_NANOMETERS,
            },
        }
    }

    /// The length equivalent of this delay class.
    pub fn delay_length(&self) -> (r: Length)
        ensures
            r == self.spec_delay_length(),
    {
        match self {
            Ala52BAircraftInstallationDelay::FiftySevenFeet => Length {
                nanometers: FIFTY_SEVEN_FEET_NANOMETERS,
            },
        }
    }
}

/// The bound transmit and receive antenna installations used jointly by one
/// altimeter channel. Pure configuration state: consumed by the transceiver
/// on every update, never mutated.
#[derive(Clone, Copy, Debug, PartialEq, Eq, Structural)]
pub struct Ala52BTransceiverPair {
    pub transmitter: AntennaInstallation,
    pub receiver: AntennaInstallation,
}

impl Ala52BTransceiverPair {
    /// Pairs a transmit installation with a receive installation and registers
    /// the pair with the enclosing simulation's element registry.
    pub fn new(
        context: &mut InitContext,
        transmitter: AntennaInstallation,
        receiver: AntennaInstallation,
    ) -> (r: Self)
        ensures
            r == (Ala52BTransceiverPair { transmitter, receiver }),
            final(context)@ == old(context)@.push(
                RegisteredElement::TransceiverPair { transmitter, receiver },
            ),
    {
        context.register(RegisteredElement::TransceiverPair { transmitter, receiver });
        Ala52BTransceiverPair { transmitter, receiver }
    }

    /// The state contribution this pair hands to a visitation pass.
    pub open spec fn contribution(self) -> VisitedElement {
        VisitedElement::TransceiverPair {
            transmitter: self.transmitter,
            receiver: self.receiver,
        }
    }

    /// Presents this pair to a visitation pass.
    pub fn accept(&self, visitor: &mut SimulationVisitor)
        ensures
            final(visitor)@ == old(visitor)@.push(self.contribution()),
    {
        visitor.visit(VisitedElement::TransceiverPair {
            transmitter: self.transmitter,
            receiver: self.receiver,
        });
    }
}

/// The mathematical content of one transceiver unit: its fixed configuration
/// and the runtime state the simulation can observe of it.
#[verifier::ext_equal]
pub ghost struct Ala52BRadioAltimeterView {
    pub number: usize,
    pub installation_delay: Ala52BAircraftInstallationDelay,
    pub powered_by: ElectricalBusType,
    /// The tick times this unit has processed, in order of arrival.
    pub received_ticks: Seq<u64>,
    /// Whether the unit's bus was energized at the most recent tick.
    pub receiving_power: bool,
    /// The antenna pair the unit was last driven with.
    pub observed_transceivers: Option<Ala52BTransceiverPair>,
}

/// The unit's state after processing one tick: the tick is appended to its
/// history, the power flag follows the context's bus state, the driving
/// antenna pair is retained, and the configuration is untouched. The unit is
/// never gated on power: an unpowered tick is processed like any other, and
/// the power loss is represented as data.
pub open spec fn engine_after_update(
    engine: Ala52BRadioAltimeterView,
    context: UpdateContextView,
    transceivers: Ala52BTransceiverPair,
) -> Ala52BRadioAltimeterView {
    Ala52BRadioAltimeterView {
        number: engine.number,
        installation_delay: engine.installation_delay,
        powered_by: engine.powered_by,
        received_ticks: engine.received_ticks.push(context.time_millis),
        receiving_power: context.energized_buses.contains(engine.powered_by),
        observed_transceivers: Some(transceivers),
    }
}

/// A freshly constructed unit: the given configuration and no runtime state.
pub open spec fn fresh_engine(
    number: usize,
    installation_delay: Ala52BAircraftInstallationDelay,
    powered_by: ElectricalBusType,
) -> Ala52BRadioAltimeterView {
    Ala52BRadioAltimeterView {
        number,
        installation_delay,
        powered_by,
        received_ticks: Seq::empty(),
        receiving_power: false,
        observed_transceivers: None,
    }
}

/// The state contribution one transceiver unit hands to a visitation pass.
pub open spec fn engine_contribution(engine: Ala52BRadioAltimeterView) -> VisitedElement {
    VisitedElement::RadioAltimeter {
        number: engine.number,
        update_count: engine.received_ticks.len() as usize,
        receiving_power: engine.receiving_power,
    }
}

/// One ALA-52B transceiver unit.
pub struct Ala52BRadioAltimeter {
    number: usize,
    installation_delay: Ala52BAircraftInstallationDelay,
    powered_by: ElectricalBusType,
    received_ticks: Vec<u64>,
    receiving_power: bool,
    observed_transceivers: Option<Ala52BTransceiverPair>,
}

impl View for Ala52BRadioAltimeter {
    type V = Ala52BRadioAltimeterView;

    closed spec fn view(&self) -> Ala52BRadioAltimeterView {
        Ala52BRadioAltimeterView {
            number: self.number,
            installation_delay: self.installation_delay,
            powered_by: self.powered_by,
            received_ticks: self.received_ticks@,
            receiving_power: self.receiving_power,
            observed_transceivers: self.observed_transceivers,
        }
    }
}

impl Ala52BRadioAltimeter {
    /// Builds one transceiver unit with its fixed configuration and registers
    /// it with the enclosing simulation's element registry.
    pub fn new(
        context: &mut InitContext,
        number: usize,
        installation_delay: Ala52BAircraftInstallationDelay,
        powered_by: ElectricalBusType,
    ) -> (r: Self)
        ensures
            r@ == fresh_engine(number, installation_delay, powered_by),
            final(context)@ == old(context)@.push(RegisteredElement::RadioAltimeter { number }),
    {
        context.register(RegisteredElement::RadioAltimeter { number });
        Ala52BRadioAltimeter {
            number,
            installation_delay,
            powered_by,
            received_ticks: Vec::new(),
            receiving_power: false,
            observed_transceivers: None,
        }
    }

    /// Processes one tick: records the tick time, notes whether the unit's bus
    /// is energized, and takes the driving antenna pair. The call is made
    /// whether or not the bus is powered; loss of power becomes data, never a
    /// skipped call.
    pub fn update(&mut self, context: &UpdateContext, transceivers: &Ala52BTransceiverPair)
        ensures
            final(self)@ == engine_after_update(old(self)@, context@, *transceivers),
    {
        self.received_ticks.push(context.time_millis());
        self.receiving_power = context.is_powered(self.powered_by);
        self.observed_transceivers = Some(*transceivers);
    }

    /// The channel number this unit serves.
    pub fn number(&self) -> (r: usize)
        ensures
            r == self@.number,
    {
        self.number
    }

    /// The unit's fixed installation-delay class.
    pub fn installation_delay(&self) -> (r: Ala52BAircraftInstallationDelay)
        ensures
            r == self@.installation_delay,
    {
        self.installation_delay
    }

    /// The electrical bus this unit is wired to.
    pub fn powered_by(&self) -> (r: ElectricalBusType)
        ensures
            r == self@.powered_by,
    {
        self.powered_by
    }

    /// How many ticks this unit has processed.
    pub fn update_count(&self) -> (r: usize)
        ensures
            r == self@.received_ticks.len(),
    {
        self.received_ticks.len()
    }

    /// The tick times this unit has processed, in order of arrival.
    pub fn received_ticks(&self) -> (r: &Vec<u64>)
        ensures
            r@ == self@.received_ticks,
    {
        &self.received_ticks
    }

    /// Whether the unit's bus was energized at the most recent tick.
    pub fn is_receiving_power(&self) -> (r: bool)
        ensures
            r == self@.receiving_power,
    {
        self.receiving_power
    }

    /// The antenna pair this unit was last driven with.
    pub fn observed_transceivers(&self) -> (r: Option<Ala52BTransceiverPair>)
        ensures
            r == self@.observed_transceivers,
    {
        self.observed_transceivers
    }

    /// Presents this unit to a visitation pass.
    pub fn accept(&self, visitor: &mut SimulationVisitor)
        ensures
            final(visitor)@ == old(visitor)@.push(engine_contribution(self@)),
    {
        visitor.visit(VisitedElement::RadioAltimeter {
            number: self.number,
            update_count: self.received_ticks.len(),
            receiving_power: self.receiving_power,
        });
    }
}

} // verus!
