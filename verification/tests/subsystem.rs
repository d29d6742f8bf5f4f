use radio_altimeter::ala52b::Ala52BAircraftInstallationDelay;
use radio_altimeter::navigation::{
    a380_channel_one_installation, a380_channel_two_installation, installations_are_independent,
    A380RadioAltimeters, ChannelInstallation,
};
use radio_altimeter::radio_altimeter::{AntennaInstallation, Length};
use radio_altimeter::shared::ElectricalBusType;
use radio_altimeter::simulation::{
    InitContext, RegisteredElement, SimulationVisitor, UpdateContext, VisitedElement,
};

fn installation(
    powered_by: ElectricalBusType,
    vertical_nm: i64,
    transmitter_aft_nm: i64,
    receiver_aft_nm: i64,
    electric_nm: i64,
) -> ChannelInstallation {
    ChannelInstallation {
        powered_by,
        transmitter: AntennaInstallation::new(
            Length::from_nanometers(vertical_nm),
            Length::from_nanometers(transmitter_aft_nm),
            Length::from_nanometers(electric_nm),
        ),
        receiver: AntennaInstallation::new(
            Length::from_nanometers(vertical_nm),
            Length::from_nanometers(receiver_aft_nm),
            Length::from_nanometers(electric_nm),
        ),
    }
}

#[test]
fn channels_have_distinct_buses_and_geometry() {
    let mut context = InitContext::new();
    let subsystem = A380RadioAltimeters::new(&mut context);

    let channel_1 = subsystem.radio_altimeter_1();
    let channel_2 = subsystem.radio_altimeter_2();

    assert_eq!(channel_1.radio_altimeter().number(), 1);
    assert_eq!(channel_2.radio_altimeter().number(), 2);
    assert_ne!(
        channel_1.radio_altimeter().powered_by(),
        channel_2.radio_altimeter().powered_by()
    );

    let pair_1 = channel_1.transceivers();
    let pair_2 = channel_2.transceivers();
    assert_ne!(pair_1.transmitter, pair_2.transmitter);
    assert_ne!(pair_1.transmitter, pair_2.receiver);
    assert_ne!(pair_1.receiver, pair_2.transmitter);
    assert_ne!(pair_1.receiver, pair_2.receiver);
}

#[test]
fn update_advances_each_channel_exactly_once() {
    let mut context = InitContext::new();
    let mut subsystem = A380RadioAltimeters::new(&mut context);

    let tick = UpdateContext::new(
        25,
        vec![
            ElectricalBusType::AlternatingCurrent(1),
            ElectricalBusType::AlternatingCurrent(2),
        ],
    );
    subsystem.update(&tick);

    assert_eq!(subsystem.radio_altimeter_1().radio_altimeter().update_count(), 1);
    assert_eq!(subsystem.radio_altimeter_2().radio_altimeter().update_count(), 1);
    assert_eq!(subsystem.radio_altimeter_1().radio_altimeter().received_ticks(), &vec![25]);
    assert_eq!(subsystem.radio_altimeter_2().radio_altimeter().received_ticks(), &vec![25]);
}

#[test]
fn visitation_is_child_before_parent() {
    let mut context = InitContext::new();
    let subsystem = A380RadioAltimeters::new(&mut context);
    let installation_1 = a380_channel_one_installation();
    let installation_2 = a380_channel_two_installation();

    let mut visitor = SimulationVisitor::new();
    subsystem.accept(&mut visitor);

    let expected = vec![
        VisitedElement::TransceiverPair {
            transmitter: installation_1.transmitter,
            receiver: installation_1.receiver,
        },
        VisitedElement::RadioAltimeter { number: 1, update_count: 0, receiving_power: false },
        VisitedElement::AltimeterChannel { number: 1 },
        VisitedElement::TransceiverPair {
            transmitter: installation_2.transmitter,
            receiver: installation_2.receiver,
        },
        VisitedElement::RadioAltimeter { number: 2, update_count: 0, receiving_power: false },
        VisitedElement::AltimeterChannel { number: 2 },
        VisitedElement::RadioAltimeterSubsystem,
    ];
    assert_eq!(visitor.visited_elements(), &expected);
}

#[test]
fn repeated_visitation_produces_the_same_order() {
    let mut context = InitContext::new();
    let subsystem = A380RadioAltimeters::new(&mut context);

    let mut first_pass = SimulationVisitor::new();
    subsystem.accept(&mut first_pass);
    let mut second_pass = SimulationVisitor::new();
    subsystem.accept(&mut second_pass);

    assert_eq!(first_pass.visited_elements(), second_pass.visited_elements());
}

#[test]
fn construction_is_idempotent_for_configuration() {
    let mut context_a = InitContext::new();
    let subsystem_a = A380RadioAltimeters::new(&mut context_a);
    let mut context_b = InitContext::new();
    let subsystem_b = A380RadioAltimeters::new(&mut context_b);

    for (channel_a, channel_b) in [
        (subsystem_a.radio_altimeter_1(), subsystem_b.radio_altimeter_1()),
        (subsystem_a.radio_altimeter_2(), subsystem_b.radio_altimeter_2()),
    ] {
        assert_eq!(channel_a.transceivers(), channel_b.transceivers());
        assert_eq!(
            channel_a.radio_altimeter().number(),
            channel_b.radio_altimeter().number()
        );
        assert_eq!(
            channel_a.radio_altimeter().powered_by(),
            channel_b.radio_altimeter().powered_by()
        );
        assert_eq!(
            channel_a.radio_altimeter().installation_delay(),
            channel_b.radio_altimeter().installation_delay()
        );
        assert_eq!(channel_a.radio_altimeter().update_count(), 0);
        assert_eq!(channel_b.radio_altimeter().update_count(), 0);
    }
}

#[test]
fn construction_registers_each_channel_unit_then_pair() {
    let mut context = InitContext::new();
    let _subsystem = A380RadioAltimeters::new(&mut context);
    let installation_1 = a380_channel_one_installation();
    let installation_2 = a380_channel_two_installation();

    let expected = vec![
        RegisteredElement::RadioAltimeter { number: 1 },
        RegisteredElement::TransceiverPair {
            transmitter: installation_1.transmitter,
            receiver: installation_1.receiver,
        },
        RegisteredElement::RadioAltimeter { number: 2 },
        RegisteredElement::TransceiverPair {
            transmitter: installation_2.transmitter,
            receiver: installation_2.receiver,
        },
    ];
    assert_eq!(context.registered_elements(), &expected);
}

#[test]
fn a_hundred_ticks_reach_both_channels_in_order() {
    let bus_a = ElectricalBusType::AlternatingCurrent(3);
    let bus_b = ElectricalBusType::DirectCurrent(4);
    let installation_1 = installation(bus_a, 500, 1_000, 2_000, 3_000);
    let installation_2 = installation(bus_b, 500, 4_000, 5_000, 6_000);
    assert!(installations_are_independent(&installation_1, &installation_2));

    let mut context = InitContext::new();
    let mut subsystem = A380RadioAltimeters::with_installations(
        &mut context,
        installation_1,
        installation_2,
    );

    for tick_time in 0..100u64 {
        let tick = UpdateContext::new(tick_time, vec![bus_a, bus_b]);
        subsystem.update(&tick);
    }

    let unit_1 = subsystem.radio_altimeter_1().radio_altimeter();
    let unit_2 = subsystem.radio_altimeter_2().radio_altimeter();
    assert_eq!(unit_1.update_count(), 100);
    assert_eq!(unit_2.update_count(), 100);
    let in_order: Vec<u64> = (0..100).collect();
    assert_eq!(unit_1.received_ticks(), &in_order);
    assert_eq!(unit_2.received_ticks(), &in_order);

    // No cross-channel state leaks: each unit was driven by its own channel's
    // antenna pair, and each channel keeps its own configuration.
    assert_eq!(
        unit_1.observed_transceivers().as_ref(),
        Some(subsystem.radio_altimeter_1().transceivers())
    );
    assert_eq!(
        unit_2.observed_transceivers().as_ref(),
        Some(subsystem.radio_altimeter_2().transceivers())
    );
    assert_eq!(unit_1.powered_by(), bus_a);
    assert_eq!(unit_2.powered_by(), bus_b);
    assert_eq!(subsystem.radio_altimeter_1().transceivers().transmitter, installation_1.transmitter);
    assert_eq!(subsystem.radio_altimeter_2().transceivers().receiver, installation_2.receiver);
}

#[test]
fn unpowered_channel_still_receives_the_tick() {
    let mut context = InitContext::new();
    let mut subsystem = A380RadioAltimeters::new(&mut context);

    // Only channel 2's bus is energized; channel 1's bus lost power.
    let tick = UpdateContext::new(7, vec![ElectricalBusType::AlternatingCurrent(2)]);
    subsystem.update(&tick);

    let unit_1 = subsystem.radio_altimeter_1().radio_altimeter();
    let unit_2 = subsystem.radio_altimeter_2().radio_altimeter();
    assert_eq!(unit_1.update_count(), 1);
    assert_eq!(unit_1.received_ticks(), &vec![7]);
    assert!(!unit_1.is_receiving_power());
    assert_eq!(unit_2.update_count(), 1);
    assert!(unit_2.is_receiving_power());
}

#[test]
fn visitation_reflects_processed_ticks_and_power() {
    let mut context = InitContext::new();
    let mut subsystem = A380RadioAltimeters::new(&mut context);
    let tick = UpdateContext::new(11, vec![ElectricalBusType::AlternatingCurrent(1)]);
    subsystem.update(&tick);

    let mut visitor = SimulationVisitor::new();
    subsystem.accept(&mut visitor);

    assert_eq!(
        visitor.visited_elements()[1],
        VisitedElement::RadioAltimeter { number: 1, update_count: 1, receiving_power: true }
    );
    assert_eq!(
        visitor.visited_elements()[4],
        VisitedElement::RadioAltimeter { number: 2, update_count: 1, receiving_power: false }
    );
}

#[test]
fn delay_class_is_fifty_seven_feet() {
    let delay = Ala52BAircraftInstallationDelay::FiftySevenFeet;
    assert_eq!(delay.delay_length(), Length::from_nanometers(57 * 304_800_000));
}

#[test]
fn dependent_installations_are_rejected_by_the_check() {
    let shared_bus = ElectricalBusType::AlternatingCurrent(1);
    let installation_1 = installation(shared_bus, 0, 1, 2, 3);
    let installation_2 = installation(ElectricalBusType::AlternatingCurrent(2), 0, 4, 5, 6);
    // Same geometry on both channels: not independent.
    assert!(!installations_are_independent(&installation_1, &installation_1));
    // Same bus: not independent even with distinct geometry.
    let on_shared_bus = installation(shared_bus, 0, 7, 8, 9);
    assert!(!installations_are_independent(&installation_1, &on_shared_bus));
    // Distinct bus and distinct geometry: independent.
    assert!(installations_are_independent(&installation_1, &installation_2));
}
