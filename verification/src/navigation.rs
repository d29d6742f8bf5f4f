//! The A380's redundant radio-altimeter subsystem: exactly two ALA-52B
//! channels, numbered 1 and 2, each wired to its own electrical bus and given
//! its own antenna geometry, advanced in lockstep once per simulation tick and
//! visited child-before-parent by the state-visitation pass.

use vstd::prelude::*;

use crate::ala52b::{
    engine_after_update, engine_contribution, fresh_engine, Ala52BAircraftInstallationDelay,
    Ala52BRadioAltimeter, Ala52BRadioAltimeterView, Ala52BTransceiverPair,
};
use crate::radio_altimeter::{AntennaInstallation, Length};
use crate::shared::ElectricalBusType;
use crate::simulation::{
    InitContext, RegisteredElement, SimulationVisitor, UpdateContext, UpdateContextView,
    VisitedElement,
};

verus! {

// The A380's calibration constants, in whole nanometers. All four antennas sit
// at the same height: the simulation's center-of-gravity reference stands
// 8.617 ft above the ground-contact reference and the antennas 1.8 m above it
// (one thousandth of a foot is exactly 304 800 nm).
/// Vertical offset shared by all four antenna installations.
pub const RA_ANTENNA_VERTICAL_OFFSET_NANOMETERS: i64 = 8_617 * 304_800 - 1_800_000_000;

/// Aft distance of channel 1's transmit antenna from the reference: 9.89 m.
pub const RA_1_TRANSMITTER_AFT_OFFSET_NANOMETERS: i64 = 9_890_000_000;

/// Aft distance of channel 1's receive antenna from the reference: 9.19 m.
pub const RA_1_RECEIVER_AFT_OFFSET_NANOMETERS: i64 = 9_190_000_000;

/// Electric length of channel 1's antennas and cabling: 22.4 ft.
pub const RA_1_ELECTRIC_LENGTH_NANOMETERS: i64 = 22_400 * 304_800;

/// Aft distance of channel 2's transmit antenna from the reference: 11.27 m.
pub const RA_2_TRANSMITTER_AFT_OFFSET_NANOMETERS: i64 = 11_270_000_000;

/// Aft distance of channel 2's receive antenna from the reference: 11.96 m.
pub const RA_2_RECEIVER_AFT_OFFSET_NANOMETERS: i64 = 11_960_000_000;

/// Electric length of channel 2's antennas and cabling: 21.4 ft.
pub const RA_2_ELECTRIC_LENGTH_NANOMETERS: i64 = 21_400 * 304_800;

/// The construction-time configuration of one altimeter channel: the bus that
/// powers it and the geometry of its two antennas.
#[derive(Clone, Copy, Debug, PartialEq, Eq, Structural)]
pub struct ChannelInstallation {
    pub powered_by: ElectricalBusType,
    pub transmitter: AntennaInstallation,
    pub receiver: AntennaInstallation,
}

/// Channel independence at configuration time: the two channels draw power
/// from different buses, and no antenna installation of one channel equals an
/// antenna installation of the other.
pub open spec fn independent_installations(
    installation_1: ChannelInstallation,
    installation_2: ChannelInstallation,
) -> bool {
    &&& installation_1.powered_by != installation_2.powered_by
    &&& installation_1.transmitter != installation_2.transmitter
    &&& installation_1.transmitter != installation_2.receiver
    &&& installation_1.receiver != installation_2.transmitter
    &&& installation_1.receiver != installation_2.receiver
}

/// Decides channel independence of two configurations.
pub fn installations_are_independent(
    installation_1: &ChannelInstallation,
    installation_2: &ChannelInstallation,
) -> (r: bool)
    ensures
        r == independent_installations(*installation_1, *installation_2),
{
    installation_1.powered_by != installation_2.powered_by
        && installation_1.transmitter != installation_2.transmitter
        && installation_1.transmitter != installation_2.receiver
        && installation_1.receiver != installation_2.transmitter
        && installation_1.receiver != installation_2.receiver
}

/// Channel 1's A380 configuration: powered by the first alternating-current
/// bus, antennas at the forward pair of fuselage stations.
pub open spec fn spec_a380_channel_one_installation() -> ChannelInstallation {
    ChannelInstallation {
        powered_by: ElectricalBusType::AlternatingCurrent(1),
        transmitter: AntennaInstallation {
            vertical_offset: Length { nanometers: RA_ANTENNA_VERTICAL_OFFSET_NANOMETERS },
            longitudinal_offset: Length { nanometers: RA_1_TRANSMITTER_AFT_OFFSET_NANOMETERS },
            electric_length: Length { nanometers: RA_1_ELECTRIC_LENGTH_NANOMETERS },
        },
        receiver: AntennaInstallation {
            vertical_offset: Length { nanometers: RA_ANTENNA_VERTICAL_OFFSET_NANOMETERS },
            longitudinal_offset: Length { nanometers: RA_1_RECEIVER_AFT_OFFSET_NANOMETERS },
            electric_length: Length { nanometers: RA_1_ELECTRIC_LENGTH_NANOMETERS },
        },
    }
}

/// Channel 2's A380 configuration: powered by the second alternating-current
/// bus, antennas at the aft pair of fuselage stations.
pub open spec fn spec_a380_channel_two_installation() -> ChannelInstallation {
    ChannelInstallation {
        powered_by: ElectricalBusType::AlternatingCurrent(2),
        transmitter: AntennaInstallation {
            vertical_offset: Length { nanometers: RA_ANTENNA_VERTICAL_OFFSET_NANOMETERS },
            longitudinal_offset: Length { nanometers: RA_2_TRANSMITTER_AFT_OFFSET_NANOMETERS },
            electric_length: Length { nanometers: RA_2_ELECTRIC_LENGTH_NANOMETERS },
        },
        receiver: AntennaInstallation {
            vertical_offset: Length { nanometers: RA_ANTENNA_VERTICAL_OFFSET_NANOMETERS },
            longitudinal_offset: Length { nanometers: RA_2_RECEIVER_AFT_OFFSET_NANOMETERS },
            electric_length: Length { nanometers: RA_2_ELECTRIC_LENGTH_NANOMETERS },
        },
    }
}

/// Channel 1's A380 configuration, as a value.
pub fn a380_channel_one_installation() -> (r: ChannelInstallation)
    ensures
        r == spec_a380_channel_one_installation(),
{
    ChannelInstallation {
        powered_by: ElectricalBusType::AlternatingCurrent(1),
        transmitter: AntennaInstallation {
            vertical_offset: Length { nanometers: RA_ANTENNA_VERTICAL_OFFSET_NANOMETERS },
            longitudinal_offset: Length { nanometers: RA_1_TRANSMITTER_AFT_OFFSET_NANOMETERS },
            electric_length: Length { nanometers: RA_1_ELECTRIC_LENGTH_NANOMETERS },
        },
        receiver: AntennaInstallation {
            vertical_offset: Length { nanometers: RA_ANTENNA_VERTICAL_OFFSET_NANOMETERS },
            longitudinal_offset: Length { nanometers: RA_1_RECEIVER_AFT_OFFSET_NANOMETERS },
            electric_length: Length { nanometers: RA_1_ELECTRIC_LENGTH_NANOMETERS },
        },
    }
}

/// Channel 2's A380 configuration, as a value.
pub fn a380_channel_two_installation() -> (r: ChannelInstallation)
    ensures
        r == spec_a380_channel_two_installation(),
{
    ChannelInstallation {
        powered_by: ElectricalBusType::AlternatingCurrent(2),
        transmitter: AntennaInstallation {
            vertical_offset: Length { nanometers: RA_ANTENNA_VERTICAL_OFFSET_NANOMETERS },
            longitudinal_offset: Length { nanometers: RA_2_TRANSMITTER_AFT_OFFSET_NANOMETERS },
            electric_length: Length { nanometers: RA_2_ELECTRIC_LENGTH_NANOMETERS },
        },
        receiver: AntennaInstallation {
            vertical_offset: Length { nanometers: RA_ANTENNA_VERTICAL_OFFSET_NANOMETERS },
            longitudinal_offset: Length { nanometers: RA_2_RECEIVER_AFT_OFFSET_NANOMETERS },
            electric_length: Length { nanometers: RA_2_ELECTRIC_LENGTH_NANOMETERS },
        },
    }
}

/// The mathematical content of one altimeter channel: its transceiver unit
/// and its fixed antenna pair.
#[verifier::ext_equal]
pub ghost struct A380RadioAltimeterView {
    pub radio_altimeter: Ala52BRadioAltimeterView,
    pub transceivers: Ala52BTransceiverPair,
}

/// A freshly constructed channel: a fresh transceiver unit with the given
/// number, the fifty-seven-feet delay class, and the configured bus, paired
/// with the configured antennas.
pub open spec fn channel_from_installation(
    number: usize,
    installation: ChannelInstallation,
) -> A380RadioAltimeterView {
    A380RadioAltimeterView {
        radio_altimeter: fresh_engine(
            number,
            Ala52BAircraftInstallationDelay::FiftySevenFeet,
            installation.powered_by,
        ),
        transceivers: Ala52BTransceiverPair {
            transmitter: installation.transmitter,
            receiver: installation.receiver,
        },
    }
}

/// A channel after one tick: its transceiver unit processes the tick, driven
/// by the channel's own antenna pair; the pair itself is untouched.
pub open spec fn channel_after_update(
    channel: A380RadioAltimeterView,
    context: UpdateContextView,
) -> A380RadioAltimeterView {
    A380RadioAltimeterView {
        radio_altimeter: engine_after_update(channel.radio_altimeter, context, channel.transceivers),
        transceivers: channel.transceivers,
    }
}

/// What one channel adds to the element registry at construction: first its
/// transceiver unit, then its antenna pair.
pub open spec fn channel_registrations(
    number: usize,
    installation: ChannelInstallation,
) -> Seq<RegisteredElement> {
    seq![
        RegisteredElement::RadioAltimeter { number },
        RegisteredElement::TransceiverPair {
            transmitter: installation.transmitter,
            receiver: installation.receiver,
        },
    ]
}

/// What one channel contributes to a visitation pass, child before parent:
/// its antenna pair, then its transceiver unit, then the channel itself.
pub open spec fn channel_visitation(channel: A380RadioAltimeterView) -> Seq<VisitedElement> {
    seq![
        channel.transceivers.contribution(),
        engine_contribution(channel.radio_altimeter),
        VisitedElement::AltimeterChannel { number: channel.radio_altimeter.number },
    ]
}

/// One altimeter channel of the A380: an ALA-52B transceiver unit and the
/// transmit/receive antenna pair that drives it.
pub struct A380RadioAltimeter {
    radio_altimeter: Ala52BRadioAltimeter,
    transceivers: Ala52BTransceiverPair,
}

impl View for A380RadioAltimeter {
    type V = A380RadioAltimeterView;

    closed spec fn view(&self) -> A380RadioAltimeterView {
        A380RadioAltimeterView {
            radio_altimeter: self.radio_altimeter@,
            transceivers: self.transceivers,
        }
    }
}

impl A380RadioAltimeter {
    /// Builds one channel: a transceiver unit with the given number, the
    /// fifty-seven-feet delay class and the given bus, and its antenna pair.
    /// Registers the unit and then the pair with the simulation's element
    /// registry.
    pub fn new(
        context: &mut InitContext,
        number: usize,
        powered_by: ElectricalBusType,
        transmitter: AntennaInstallation,
        receiver: AntennaInstallation,
    ) -> (r: Self)
        ensures
            r@ == channel_from_installation(
                number,
                ChannelInstallation { powered_by, transmitter, receiver },
            ),
            final(context)@ == old(context)@ + channel_registrations(
                number,
                ChannelInstallation { powered_by, transmitter, receiver },
            ),
    {
        let radio_altimeter = Ala52BRadioAltimeter::new(
            context,
            number,
            Ala52BAircraftInstallationDelay::FiftySevenFeet,
            powered_by,
        );
        let transceivers = Ala52BTransceiverPair::new(context, transmitter, receiver);
        A380RadioAltimeter { radio_altimeter, transceivers }
    }

    /// Advances the channel by one tick: the transceiver unit receives the
    /// tick context and the channel's antenna pair. The call is made on every
    /// tick, powered or not.
    pub fn update(&mut self, context: &UpdateContext)
        ensures
            final(self)@ == channel_after_update(old(self)@, context@),
    {
        self.radio_altimeter.update(context, &self.transceivers);
    }

    /// Presents the channel to a visitation pass, children first: the antenna
    /// pair, then the transceiver unit, then the channel itself.
    pub fn accept(&self, visitor: &mut SimulationVisitor)
        ensures
            final(visitor)@ == old(visitor)@ + channel_visitation(self@),
    {
        self.transceivers.accept(visitor);
        self.radio_altimeter.accept(visitor);
        visitor.visit(VisitedElement::AltimeterChannel { number: self.radio_altimeter.number() });
    }

    /// The channel's transceiver unit.
    pub fn radio_altimeter(&self) -> (r: &Ala52BRadioAltimeter)
        ensures
            r@ == self@.radio_altimeter,
    {
        &self.radio_altimeter
    }

    /// The channel's antenna pair.
    pub fn transceivers(&self) -> (r: &Ala52BTransceiverPair)
        ensures
            *r == self@.transceivers,
    {
        &self.transceivers
    }
}

/// The mathematical content of the subsystem: its two channels.
#[verifier::ext_equal]
pub ghost struct A380RadioAltimetersView {
    pub radio_altimeter_1: A380RadioAltimeterView,
    pub radio_altimeter_2: A380RadioAltimeterView,
}

/// A freshly constructed subsystem: channel 1 from the first configuration,
/// channel 2 from the second.
pub open spec fn subsystem_from_installations(
    installation_1: ChannelInstallation,
    installation_2: ChannelInstallation,
) -> A380RadioAltimetersView {
    A380RadioAltimetersView {
        radio_altimeter_1: channel_from_installation(1, installation_1),
        radio_altimeter_2: channel_from_installation(2, installation_2),
    }
}

/// The subsystem after one tick: each channel processes the tick exactly
/// once, and nothing passes between the channels.
pub open spec fn subsystem_after_update(
    subsystem: A380RadioAltimetersView,
    context: UpdateContextView,
) -> A380RadioAltimetersView {
    A380RadioAltimetersView {
        radio_altimeter_1: channel_after_update(subsystem.radio_altimeter_1, context),
        radio_altimeter_2: channel_after_update(subsystem.radio_altimeter_2, context),
    }
}

/// What the subsystem adds to the element registry at construction: channel
/// 1's elements, then channel 2's.
pub open spec fn subsystem_registrations(
    installation_1: ChannelInstallation,
    installation_2: ChannelInstallation,
) -> Seq<RegisteredElement> {
    channel_registrations(1, installation_1) + channel_registrations(2, installation_2)
}

/// What the subsystem contributes to a visitation pass, children first:
/// channel 1's elements, then channel 2's, then the subsystem itself.
pub open spec fn subsystem_visitation(subsystem: A380RadioAltimetersView) -> Seq<VisitedElement> {
    channel_visitation(subsystem.radio_altimeter_1)
        + channel_visitation(subsystem.radio_altimeter_2)
        + seq![VisitedElement::RadioAltimeterSubsystem]
}

/// Channel independence of a constructed subsystem: the channels carry their
/// fixed numbers 1 and 2, draw power from different buses, and share no
/// antenna installation.
pub open spec fn channels_independent(subsystem: A380RadioAltimetersView) -> bool {
    &&& subsystem.radio_altimeter_1.radio_altimeter.number == 1
    &&& subsystem.radio_altimeter_2.radio_altimeter.number == 2
    &&& subsystem.radio_altimeter_1.radio_altimeter.powered_by
        != subsystem.radio_altimeter_2.radio_altimeter.powered_by
    &&& subsystem.radio_altimeter_1.transceivers.transmitter
        != subsystem.radio_altimeter_2.transceivers.transmitter
    &&& subsystem.radio_altimeter_1.transceivers.transmitter
        != subsystem.radio_altimeter_2.transceivers.receiver
    &&& subsystem.radio_altimeter_1.transceivers.receiver
        != subsystem.radio_altimeter_2.transceivers.transmitter
    &&& subsystem.radio_altimeter_1.transceivers.receiver
        != subsystem.radio_altimeter_2.transceivers.receiver
}

/// The A380's redundant radio-altimeter subsystem: channel 1 and channel 2,
/// independently powered and geometrically distinct.
pub struct A380RadioAltimeters {
    radio_altimeter_1: A380RadioAltimeter,
    radio_altimeter_2: A380RadioAltimeter,
}

impl View for A380RadioAltimeters {
    type V = A380RadioAltimetersView;

    closed spec fn view(&self) -> A380RadioAltimetersView {
        A380RadioAltimetersView {
            radio_altimeter_1: self.radio_altimeter_1@,
            radio_altimeter_2: self.radio_altimeter_2@,
        }
    }
}

impl A380RadioAltimeters {
    /// Builds the subsystem with the A380's own calibration constants:
    /// channel 1 on the first alternating-current bus at the forward antenna
    /// stations, channel 2 on the second at the aft stations.
    pub fn new(context: &mut InitContext) -> (r: Self)
        ensures
            r@ == subsystem_from_installations(
                spec_a380_channel_one_installation(),
                spec_a380_channel_two_installation(),
            ),
            channels_independent(r@),
            final(context)@ == old(context)@ + subsystem_registrations(
                spec_a380_channel_one_installation(),
                spec_a380_channel_two_installation(),
            ),
    {
        let installation_1 = a380_channel_one_installation();
        let installation_2 = a380_channel_two_installation();
        Self::with_installations(context, installation_1, installation_2)
    }

    /// Builds the subsystem from explicit channel configurations, channel 1
    /// first. Independence of the two configurations is a construction-time
    /// obligation of the aircraft model, matching the subsystem's invariant
    /// that the channels never share a bus or an antenna installation.
    pub fn with_installations(
        context: &mut InitContext,
        installation_1: ChannelInstallation,
        installation_2: ChannelInstallation,
    ) -> (r: Self)
        requires
            independent_installations(installation_1, installation_2),
        ensures
            r@ == subsystem_from_installations(installation_1, installation_2),
            channels_independent(r@),
            final(context)@ == old(context)@ + subsystem_registrations(
                installation_1,
                installation_2,
            ),
    {
        let radio_altimeter_1 = A380RadioAltimeter::new(
            context,
            1,
            installation_1.powered_by,
            installation_1.transmitter,
            installation_1.receiver,
        );
        let radio_altimeter_2 = A380RadioAltimeter::new(
            context,
            2,
            installation_2.powered_by,
            installation_2.transmitter,
            installation_2.receiver,
        );
        A380RadioAltimeters { radio_altimeter_1, radio_altimeter_2 }
    }

    /// Advances the subsystem by one tick: channel 1, then channel 2, exactly
    /// once each. The order is a determinism choice, not a dependency: no
    /// data passes between the channels, and neither call is gated on power.
    pub fn update(&mut self, context: &UpdateContext)
        ensures
            final(self)@ == subsystem_after_update(old(self)@, context@),
            channels_independent(old(self)@) ==> channels_independent(final(self)@),
    {
        self.radio_altimeter_1.update(context);
        self.radio_altimeter_2.update(context);
    }

    /// Presents the subsystem to a visitation pass, children first: channel
    /// 1's antenna pair, unit and channel, then channel 2's, then the
    /// subsystem itself.
    pub fn accept(&self, visitor: &mut SimulationVisitor)
        ensures
            final(visitor)@ == old(visitor)@ + subsystem_visitation(self@),
    {
        self.radio_altimeter_1.accept(visitor);
        self.radio_altimeter_2.accept(visitor);
        visitor.visit(VisitedElement::RadioAltimeterSubsystem);
    }

    /// Channel 1.
    pub fn radio_altimeter_1(&self) -> (r: &A380RadioAltimeter)
        ensures
            r@ == self@.radio_altimeter_1,
    {
        &self.radio_altimeter_1
    }

    /// Channel 2.
    pub fn radio_altimeter_2(&self) -> (r: &A380RadioAltimeter)
        ensures
            r@ == self@.radio_altimeter_2,
    {
        &self.radio_altimeter_2
    }
}

/// Law: construction yields independent channels. A subsystem built from
/// independent configurations has channels with their fixed numbers, distinct
/// power buses and pairwise distinct antenna installations.
pub proof fn lemma_construction_yields_independent_channels(
    installation_1: ChannelInstallation,
    installation_2: ChannelInstallation,
)
    requires
        independent_installations(installation_1, installation_2),
    ensures
        channels_independent(subsystem_from_installations(installation_1, installation_2)),
{
}

/// Law: one tick never disturbs channel independence. Updating preserves each
/// channel's number, bus and antenna geometry, so an independent subsystem
/// stays independent for its whole service life.
pub proof fn lemma_update_preserves_channel_independence(
    subsystem: A380RadioAltimetersView,
    context: UpdateContextView,
)
    requires
        channels_independent(subsystem),
    ensures
        channels_independent(subsystem_after_update(subsystem, context)),
{
}

/// Law: one subsystem tick is exactly one tick of channel 1 and one tick of
/// channel 2 — no channel is skipped or advanced twice, each unit's tick
/// history grows by exactly this tick, and nothing else of either channel
/// changes.
pub proof fn lemma_update_advances_each_channel_once(
    subsystem: A380RadioAltimetersView,
    context: UpdateContextView,
)
    ensures
        subsystem_after_update(subsystem, context).radio_altimeter_1 == channel_after_update(
            subsystem.radio_altimeter_1,
            context,
        ),
        subsystem_after_update(subsystem, context).radio_altimeter_2 == channel_after_update(
            subsystem.radio_altimeter_2,
            context,
        ),
        channel_after_update(subsystem.radio_altimeter_1, context).radio_altimeter.received_ticks
            == subsystem.radio_altimeter_1.radio_altimeter.received_ticks.push(
            context.time_millis,
        ),
        channel_after_update(subsystem.radio_altimeter_2, context).radio_altimeter.received_ticks
            == subsystem.radio_altimeter_2.radio_altimeter.received_ticks.push(
            context.time_millis,
        ),
        channel_after_update(subsystem.radio_altimeter_1, context).transceivers
            == subsystem.radio_altimeter_1.transceivers,
        channel_after_update(subsystem.radio_altimeter_2, context).transceivers
            == subsystem.radio_altimeter_2.transceivers,
{
}

/// Law: visitation is deterministic and child-before-parent. A visitation
/// pass over the subsystem contributes exactly seven entries: channel 1's
/// antenna pair, transceiver unit and channel, then channel 2's, then the
/// subsystem last. The order is a function of the subsystem's state alone, so
/// repeated passes over an unchanged subsystem produce the same order.
pub proof fn lemma_visitation_child_before_parent(subsystem: A380RadioAltimetersView)
    ensures
        subsystem_visitation(subsystem).len() == 7,
        subsystem_visitation(subsystem)[0] == subsystem.radio_altimeter_1.transceivers.contribution(),
        subsystem_visitation(subsystem)[1] == engine_contribution(
            subsystem.radio_altimeter_1.radio_altimeter,
        ),
        subsystem_visitation(subsystem)[2] == (VisitedElement::AltimeterChannel {
            number: subsystem.radio_altimeter_1.radio_altimeter.number,
        }),
        subsystem_visitation(subsystem)[3] == subsystem.radio_altimeter_2.transceivers.contribution(),
        subsystem_visitation(subsystem)[4] == engine_contribution(
            subsystem.radio_altimeter_2.radio_altimeter,
        ),
        subsystem_visitation(subsystem)[5] == (VisitedElement::AltimeterChannel {
            number: subsystem.radio_altimeter_2.radio_altimeter.number,
        }),
        subsystem_visitation(subsystem)[6] == VisitedElement::RadioAltimeterSubsystem,
{
}

/// Law: construction is idempotent with respect to configuration. Two
/// subsystems built from the same pair of configurations are equal in every
/// observable respect — same geometry and bus assignment, and the same fresh
/// runtime state, whatever else went on around either construction.
pub proof fn lemma_construction_idempotent(
    installation_1: ChannelInstallation,
    installation_2: ChannelInstallation,
    subsystem_a: A380RadioAltimetersView,
    subsystem_b: A380RadioAltimetersView,
)
    requires
        subsystem_a == subsystem_from_installations(installation_1, installation_2),
        subsystem_b == subsystem_from_installations(installation_1, installation_2),
    ensures
        subsystem_a == subsystem_b,
{
}

} // verus!
