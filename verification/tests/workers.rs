//! Asynchronous worker protocol: callback invocation order, synchronous
//! teardown, abnormal termination, and trigger-mode exclusivity.

use gpio::{
    AsyncWorker, BusProbe, CandidateProbe, EdgeKind, Error, Gpio, InstanceRegistry, Level,
    Trigger, WorkerEvent,
};

fn fresh() -> (Gpio, InstanceRegistry) {
    let mut registry = InstanceRegistry::new();
    let candidates = vec![CandidateProbe::Labeled("pinctrl-bcm2835".to_string())];
    let gpio = Gpio::new(&mut registry, BusProbe::Granted, BusProbe::Denied, &candidates)
        .expect("construction");
    (gpio, registry)
}

#[test]
fn a_worker_invokes_the_callback_once_per_edge_in_order() {
    let mut w = AsyncWorker::new(Trigger::Both);
    let (exit, levels) = w.step(WorkerEvent::Edges(vec![EdgeKind::Rising, EdgeKind::Falling]));
    assert!(!exit);
    assert_eq!(levels, vec![Level::High, Level::Low]);
    assert_eq!(w.invocations(), 2);
    let (exit, levels) = w.step(WorkerEvent::Edges(vec![EdgeKind::Rising]));
    assert!(!exit);
    assert_eq!(levels, vec![Level::High]);
    assert_eq!(w.invocations(), 3);
}

#[test]
fn a_stopped_worker_never_invokes_the_callback_again() {
    let mut w = AsyncWorker::new(Trigger::RisingEdge);
    let (_, _) = w.step(WorkerEvent::Edges(vec![EdgeKind::Rising]));
    assert_eq!(w.stop(), Ok(()));
    let sampled = w.invocations();
    let (exit, levels) = w.step(WorkerEvent::Edges(vec![EdgeKind::Rising, EdgeKind::Rising]));
    assert!(exit);
    assert!(levels.is_empty());
    assert_eq!(w.invocations(), sampled);
    assert!(!w.is_running());
}

#[test]
fn the_stop_signal_ends_the_loop() {
    let mut w = AsyncWorker::new(Trigger::Both);
    let (exit, levels) = w.step(WorkerEvent::Stop);
    assert!(exit);
    assert!(levels.is_empty());
    assert!(!w.is_running());
    assert_eq!(w.stop(), Ok(()));
}

#[test]
fn a_panicking_callback_surfaces_at_stop_time() {
    let mut w = AsyncWorker::new(Trigger::Both);
    let (exit, levels) = w.step(WorkerEvent::CallbackPanicked);
    assert!(exit);
    assert!(levels.is_empty());
    assert_eq!(w.stop(), Err(Error::ThreadPanic));
}

#[test]
fn the_handle_feeds_worker_rounds_and_counts_invocations() {
    let (mut gpio, _registry) = fresh();
    gpio.set_async_interrupt(1, Trigger::Both).unwrap();
    assert!(gpio.has_async_interrupt(1));
    assert_eq!(gpio.async_interrupt_invocations(1), Some(0));

    let out = gpio.async_interrupt_event(1, WorkerEvent::Edges(vec![EdgeKind::Rising])).unwrap();
    assert!(!out.0);
    assert_eq!(out.1, vec![Level::High]);
    assert_eq!(gpio.async_interrupt_invocations(1), Some(1));

    let out = gpio.async_interrupt_event(1, WorkerEvent::Stop).unwrap();
    assert!(out.0);
    assert!(out.1.is_empty());
    assert_eq!(gpio.clear_async_interrupt(1), Ok(()));
    assert!(!gpio.has_async_interrupt(1));
    assert_eq!(gpio.async_interrupt_invocations(1), None);
}

#[test]
fn a_pin_without_a_worker_ignores_events() {
    let (mut gpio, _registry) = fresh();
    let out = gpio.async_interrupt_event(30, WorkerEvent::Stop).unwrap();
    assert!(out.0);
    assert!(out.1.is_empty());
    assert_eq!(
        gpio.async_interrupt_event(70, WorkerEvent::Stop),
        Err(Error::InvalidPin(70))
    );
}

#[test]
fn an_abnormal_worker_termination_surfaces_as_thread_panic() {
    let (mut gpio, _registry) = fresh();
    gpio.set_async_interrupt(2, Trigger::Both).unwrap();
    let out = gpio.async_interrupt_event(2, WorkerEvent::CallbackPanicked).unwrap();
    assert!(out.0);
    assert_eq!(gpio.clear_async_interrupt(2), Err(Error::ThreadPanic));
    assert!(!gpio.has_async_interrupt(2));
    assert_eq!(gpio.clear_async_interrupt(2), Ok(()));
}

#[test]
fn arming_sync_tears_down_the_async_worker_first() {
    let (mut gpio, _registry) = fresh();
    gpio.set_async_interrupt(9, Trigger::Both).unwrap();
    assert!(gpio.has_async_interrupt(9));
    gpio.set_interrupt(9, Trigger::RisingEdge).unwrap();
    assert!(!gpio.has_async_interrupt(9));
    assert_eq!(gpio.interrupt_trigger(9), Trigger::RisingEdge);
    // After teardown no round of the worker loop can invoke the callback.
    let out = gpio.async_interrupt_event(9, WorkerEvent::Edges(vec![EdgeKind::Rising])).unwrap();
    assert!(out.0);
    assert!(out.1.is_empty());
}

#[test]
fn arming_async_tears_down_the_sync_trigger_first() {
    let (mut gpio, _registry) = fresh();
    gpio.set_interrupt(9, Trigger::FallingEdge).unwrap();
    gpio.set_async_interrupt(9, Trigger::Both).unwrap();
    assert_eq!(gpio.interrupt_trigger(9), Trigger::Disabled);
    assert!(gpio.has_async_interrupt(9));
    gpio.clear_async_interrupt(9).unwrap();
}

#[test]
fn a_failed_worker_blocks_the_sync_arm_with_thread_panic() {
    let (mut gpio, _registry) = fresh();
    gpio.set_async_interrupt(5, Trigger::Both).unwrap();
    gpio.async_interrupt_event(5, WorkerEvent::CallbackPanicked).unwrap();
    assert_eq!(gpio.set_interrupt(5, Trigger::Both), Err(Error::ThreadPanic));
    // The worker is gone even so, and arming now succeeds.
    assert!(!gpio.has_async_interrupt(5));
    assert_eq!(gpio.set_interrupt(5, Trigger::Both), Ok(()));
}

#[test]
fn guard_release_force_disarms_the_async_worker() {
    let (mut gpio, _registry) = fresh();
    let mut pin = gpio.get_pin(14).unwrap();
    let mut inp = pin.as_input(&mut gpio);
    inp.set_async_interrupt(&mut gpio, Trigger::Both).unwrap();
    assert!(gpio.has_async_interrupt(14));
    inp.release(&mut gpio).unwrap();
    assert!(!gpio.has_async_interrupt(14));
}
