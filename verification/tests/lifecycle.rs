//! Construction, single-instance enforcement, bus-path fallback,
//! controller discovery and teardown.

use gpio::{
    BusProbe, CandidateProbe, Error, Gpio, InstanceRegistry, Level, Mode, Trigger, find_driver,
    label_accepted, level_of_edge, EdgeKind,
};

fn good_candidates() -> Vec<CandidateProbe> {
    vec![CandidateProbe::Labeled("pinctrl-bcm2835".to_string())]
}

#[test]
fn a_second_live_handle_is_refused_until_teardown() {
    let mut registry = InstanceRegistry::new();
    let candidates = good_candidates();
    let mut first =
        Gpio::new(&mut registry, BusProbe::Granted, BusProbe::Denied, &candidates).unwrap();
    let second = Gpio::new(&mut registry, BusProbe::Granted, BusProbe::Denied, &candidates);
    assert!(matches!(second, Err(Error::InstanceExists)));
    first.cleanup(&mut registry).unwrap();
    let third = Gpio::new(&mut registry, BusProbe::Granted, BusProbe::Denied, &candidates);
    assert!(third.is_ok());
}

#[test]
fn a_failed_construction_releases_the_claim() {
    let mut registry = InstanceRegistry::new();
    let no_match = vec![CandidateProbe::Absent; 8];
    let failed = Gpio::new(&mut registry, BusProbe::Granted, BusProbe::Denied, &no_match);
    assert!(matches!(failed, Err(Error::UnknownSoC)));
    assert!(!registry.live());
    let ok = Gpio::new(&mut registry, BusProbe::Granted, BusProbe::Denied, &good_candidates());
    assert!(ok.is_ok());
}

#[test]
fn the_privileged_path_is_only_a_fallback() {
    let mut registry = InstanceRegistry::new();
    let mut g = Gpio::new(&mut registry, BusProbe::Denied, BusProbe::Granted, &good_candidates())
        .unwrap();
    assert!(g.is_initialized());
    g.cleanup(&mut registry).unwrap();

    let denied =
        Gpio::new(&mut registry, BusProbe::Denied, BusProbe::Denied, &good_candidates());
    assert!(matches!(denied, Err(Error::PermissionDenied)));

    let failed =
        Gpio::new(&mut registry, BusProbe::Failed(13), BusProbe::Granted, &good_candidates());
    assert_eq!(failed.err(), Some(Error::Io(13)));

    let fallback_failed =
        Gpio::new(&mut registry, BusProbe::Denied, BusProbe::Failed(5), &good_candidates());
    assert_eq!(fallback_failed.err(), Some(Error::Io(5)));
}

#[test]
fn discovery_picks_the_first_accepted_label() {
    let candidates = vec![
        CandidateProbe::Absent,
        CandidateProbe::Labeled("some-other-chip".to_string()),
        CandidateProbe::Labeled("pinctrl-bcm2835".to_string()),
        CandidateProbe::Labeled("pinctrl-bcm2711".to_string()),
    ];
    assert_eq!(find_driver(&candidates), Ok(2));
    let newer = vec![CandidateProbe::Labeled("pinctrl-bcm2711".to_string())];
    assert_eq!(find_driver(&newer), Ok(0));
}

#[test]
fn discovery_with_no_match_reports_an_unknown_chip() {
    let mut candidates: Vec<CandidateProbe> = Vec::new();
    for i in 0..8 {
        if i % 2 == 0 {
            candidates.push(CandidateProbe::Absent);
        } else {
            candidates.push(CandidateProbe::Labeled("pinctrl-something".to_string()));
        }
    }
    assert_eq!(find_driver(&candidates), Err(Error::UnknownSoC));
    assert_eq!(find_driver(&Vec::new()), Err(Error::UnknownSoC));
}

#[test]
fn a_failing_candidate_stops_discovery_with_its_error() {
    let candidates = vec![
        CandidateProbe::Absent,
        CandidateProbe::Failed(71),
        CandidateProbe::Labeled("pinctrl-bcm2835".to_string()),
    ];
    assert_eq!(find_driver(&candidates), Err(Error::Io(71)));
}

#[test]
fn only_supported_controller_labels_are_accepted() {
    assert!(label_accepted(&"pinctrl-bcm2835".to_string()));
    assert!(label_accepted(&"pinctrl-bcm2711".to_string()));
    assert!(!label_accepted(&"pinctrl-bcm283".to_string()));
    assert!(!label_accepted(&"pinctrl-bcm28355".to_string()));
    assert!(!label_accepted(&"".to_string()));
}

#[test]
fn teardown_closes_everything_and_repeats_safely() {
    let mut registry = InstanceRegistry::new();
    let mut g =
        Gpio::new(&mut registry, BusProbe::Granted, BusProbe::Denied, &good_candidates()).unwrap();
    g.set_interrupt(10, Trigger::Both).unwrap();
    g.set_async_interrupt(11, Trigger::RisingEdge).unwrap();
    g.cleanup(&mut registry).unwrap();
    assert!(!g.is_initialized());
    assert!(!registry.live());
    assert_eq!(g.interrupt_trigger(10), Trigger::Disabled);
    assert!(!g.has_async_interrupt(11));
    assert!(matches!(g.set_interrupt(10, Trigger::Both), Err(Error::Io(_))));
    assert!(matches!(g.clear_interrupt(10), Err(Error::Io(_))));
    assert!(matches!(g.set_async_interrupt(11, Trigger::Both), Err(Error::Io(_))));
    assert!(matches!(g.clear_async_interrupt(11), Err(Error::Io(_))));
    // Repeated teardown is a safe no-op.
    assert_eq!(g.cleanup(&mut registry), Ok(()));
}

#[test]
fn get_pin_range_checks_the_index() {
    let mut registry = InstanceRegistry::new();
    let g =
        Gpio::new(&mut registry, BusProbe::Granted, BusProbe::Denied, &good_candidates()).unwrap();
    assert!(g.get_pin(0).is_some());
    let pin = g.get_pin(53).unwrap();
    assert_eq!(pin.number(), 53);
    assert!(g.get_pin(54).is_none());
    assert!(g.get_pin(255).is_none());
}

#[test]
fn clear_on_drop_flag_is_stored() {
    let mut registry = InstanceRegistry::new();
    let mut g =
        Gpio::new(&mut registry, BusProbe::Granted, BusProbe::Denied, &good_candidates()).unwrap();
    assert!(g.clear_on_drop());
    g.set_clear_on_drop(false);
    assert!(!g.clear_on_drop());
}

#[test]
fn vocabulary_encodings_are_exact() {
    assert_eq!(Mode::from_bits(0b000), Mode::Input);
    assert_eq!(Mode::from_bits(0b001), Mode::Output);
    assert_eq!(Mode::from_bits(0b010), Mode::Alt5);
    assert_eq!(Mode::from_bits(0b011), Mode::Alt4);
    assert_eq!(Mode::from_bits(0b100), Mode::Alt0);
    assert_eq!(Mode::from_bits(0b101), Mode::Alt1);
    assert_eq!(Mode::from_bits(0b110), Mode::Alt2);
    assert_eq!(Mode::from_bits(0b111), Mode::Alt3);
    for bits in 0u32..8 {
        assert_eq!(Mode::from_bits(bits).bits(), bits);
    }
    assert_eq!(level_of_edge(EdgeKind::Rising), Level::High);
    assert_eq!(level_of_edge(EdgeKind::Falling), Level::Low);
}
