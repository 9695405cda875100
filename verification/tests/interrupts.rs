//! Synchronous interrupt polling: arming, cached edges, reset semantics,
//! and delivery of simultaneous edges.

use gpio::{
    BusProbe, CandidateProbe, EdgeEvent, EdgeKind, Error, Gpio, InstanceRegistry, Level, Trigger,
};

fn fresh() -> (Gpio, InstanceRegistry) {
    let mut registry = InstanceRegistry::new();
    let candidates = vec![CandidateProbe::Labeled("pinctrl-bcm2835".to_string())];
    let gpio = Gpio::new(&mut registry, BusProbe::Granted, BusProbe::Denied, &candidates)
        .expect("construction");
    (gpio, registry)
}

fn edge(pin: u8, kind: EdgeKind, stamp: u64) -> EdgeEvent {
    EdgeEvent { pin, kind, stamp }
}

#[test]
fn poll_delivers_a_rising_edge_as_high() {
    let (mut gpio, _registry) = fresh();
    gpio.set_interrupt(4, Trigger::RisingEdge).unwrap();
    let wake = vec![edge(4, EdgeKind::Rising, 1)];
    assert_eq!(gpio.poll_interrupt(4, true, &wake), Ok(Some(Level::High)));
}

#[test]
fn poll_returns_nothing_on_a_timeout() {
    let (mut gpio, _registry) = fresh();
    gpio.set_interrupt(4, Trigger::Both).unwrap();
    let wake: Vec<EdgeEvent> = Vec::new();
    assert_eq!(gpio.poll_interrupt(4, true, &wake), Ok(None));
}

#[test]
fn reset_discards_an_edge_cached_before_the_call() {
    let (mut gpio, _registry) = fresh();
    gpio.set_interrupt(11, Trigger::Both).unwrap();
    // Two edges in one wake: the first is delivered, the second is cached.
    let wake = vec![edge(11, EdgeKind::Rising, 1), edge(11, EdgeKind::Falling, 2)];
    assert_eq!(gpio.poll_interrupt(11, true, &wake), Ok(Some(Level::High)));
    // With reset, the cached falling edge is ignored and the empty wake
    // ends the poll with nothing.
    let empty: Vec<EdgeEvent> = Vec::new();
    assert_eq!(gpio.poll_interrupt(11, true, &empty), Ok(None));
}

#[test]
fn without_reset_a_cached_edge_returns_at_once() {
    let (mut gpio, _registry) = fresh();
    gpio.set_interrupt(11, Trigger::Both).unwrap();
    let wake = vec![edge(11, EdgeKind::Rising, 1), edge(11, EdgeKind::Falling, 2)];
    assert_eq!(gpio.poll_interrupt(11, true, &wake), Ok(Some(Level::High)));
    // The cached falling edge is delivered without consulting the wait.
    let empty: Vec<EdgeEvent> = Vec::new();
    assert_eq!(gpio.poll_interrupt(11, false, &empty), Ok(Some(Level::Low)));
    // And it is consumed by that delivery.
    assert_eq!(gpio.poll_interrupt(11, false, &empty), Ok(None));
}

#[test]
fn simultaneous_edges_deliver_one_pair_and_cache_the_other() {
    let (mut gpio, _registry) = fresh();
    gpio.set_interrupt(2, Trigger::Both).unwrap();
    gpio.set_interrupt(7, Trigger::Both).unwrap();
    let pins = vec![2u8, 7];
    let wake = vec![edge(2, EdgeKind::Rising, 1), edge(7, EdgeKind::Falling, 1)];
    assert_eq!(gpio.poll_interrupts(&pins, true, &wake), Ok(Some((2, Level::High))));
    // The follow-up without reset returns the other pin's cached edge
    // without blocking on the wait.
    let empty: Vec<EdgeEvent> = Vec::new();
    assert_eq!(gpio.poll_interrupts(&pins, false, &empty), Ok(Some((7, Level::Low))));
    assert_eq!(gpio.poll_interrupts(&pins, false, &empty), Ok(None));
}

#[test]
fn an_edge_for_another_requested_pin_is_cached() {
    let (mut gpio, _registry) = fresh();
    gpio.set_interrupt(3, Trigger::Both).unwrap();
    gpio.set_interrupt(30, Trigger::Both).unwrap();
    // Only pin 3 is requested; pin 30's edge is cached for a later call.
    let wake = vec![edge(30, EdgeKind::Rising, 4)];
    let pins = vec![3u8];
    assert_eq!(gpio.poll_interrupts(&pins, true, &wake), Ok(None));
    let empty: Vec<EdgeEvent> = Vec::new();
    let both = vec![3u8, 30];
    assert_eq!(gpio.poll_interrupts(&both, false, &empty), Ok(Some((30, Level::High))));
}

#[test]
fn arming_again_drops_the_cached_edge() {
    let (mut gpio, _registry) = fresh();
    gpio.set_interrupt(11, Trigger::Both).unwrap();
    let wake = vec![edge(11, EdgeKind::Rising, 1), edge(11, EdgeKind::Falling, 2)];
    assert_eq!(gpio.poll_interrupt(11, true, &wake), Ok(Some(Level::High)));
    gpio.set_interrupt(11, Trigger::Both).unwrap();
    let empty: Vec<EdgeEvent> = Vec::new();
    assert_eq!(gpio.poll_interrupt(11, false, &empty), Ok(None));
}

#[test]
fn clear_interrupt_disarms_and_drops_the_cache() {
    let (mut gpio, _registry) = fresh();
    gpio.set_interrupt(8, Trigger::FallingEdge).unwrap();
    assert_eq!(gpio.interrupt_trigger(8), Trigger::FallingEdge);
    let wake = vec![edge(8, EdgeKind::Falling, 1), edge(8, EdgeKind::Falling, 2)];
    assert_eq!(gpio.poll_interrupt(8, true, &wake), Ok(Some(Level::Low)));
    gpio.clear_interrupt(8).unwrap();
    assert_eq!(gpio.interrupt_trigger(8), Trigger::Disabled);
    let empty: Vec<EdgeEvent> = Vec::new();
    assert_eq!(gpio.poll_interrupt(8, false, &empty), Ok(None));
}

#[test]
fn out_of_range_pins_are_rejected_before_any_waiting() {
    let (mut gpio, _registry) = fresh();
    let empty: Vec<EdgeEvent> = Vec::new();
    let pins = vec![60u8];
    assert_eq!(gpio.poll_interrupts(&pins, true, &empty), Err(Error::InvalidPin(60)));
    assert_eq!(gpio.set_interrupt(54, Trigger::Both), Err(Error::InvalidPin(54)));
    assert_eq!(gpio.clear_interrupt(200), Err(Error::InvalidPin(200)));
}

#[test]
fn guard_interrupt_surface_mirrors_the_handle() {
    let (mut gpio, _registry) = fresh();
    let mut pin = gpio.get_pin(23).unwrap();
    let mut inp = pin.as_input(&mut gpio);
    inp.set_interrupt(&mut gpio, Trigger::RisingEdge).unwrap();
    let wake = vec![edge(23, EdgeKind::Rising, 9)];
    assert_eq!(inp.poll_interrupt(&mut gpio, true, &wake), Ok(Some(Level::High)));
    inp.clear_interrupt(&mut gpio).unwrap();
    assert_eq!(gpio.interrupt_trigger(23), Trigger::Disabled);
    inp.release(&mut gpio).unwrap();
}
