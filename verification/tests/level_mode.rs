//! Level writes, mode capture/restore, and the pull sequence.

use gpio::{
    BusProbe, CandidateProbe, Error, Gpio, InstanceRegistry, Level, Mode, PullStep, PullUpDown,
    pull_sequence,
};

fn fresh() -> (Gpio, InstanceRegistry) {
    let mut registry = InstanceRegistry::new();
    let candidates = vec![CandidateProbe::Labeled("pinctrl-bcm2835".to_string())];
    let gpio = Gpio::new(&mut registry, BusProbe::Granted, BusProbe::Denied, &candidates)
        .expect("construction");
    (gpio, registry)
}

#[test]
fn write_high_is_read_back_until_low() {
    let (mut gpio, _registry) = fresh();
    for idx in [0u8, 31, 32, 53] {
        let mut pin = gpio.get_pin(idx).unwrap();
        let mut out = pin.as_output(&mut gpio);
        out.set_high(&mut gpio);
        out.release(&mut gpio);

        let inp = pin.as_input(&mut gpio);
        assert_eq!(inp.read(&gpio), Level::High);
        inp.release(&mut gpio).unwrap();

        let mut out = pin.as_output(&mut gpio);
        out.write(&mut gpio, Level::Low);
        out.release(&mut gpio);

        let inp = pin.as_input(&mut gpio);
        assert_eq!(inp.read(&gpio), Level::Low);
        inp.release(&mut gpio).unwrap();
    }
}

#[test]
fn level_writes_leave_other_pins_alone() {
    let (mut gpio, _registry) = fresh();
    let mut five = gpio.get_pin(5).unwrap();
    let mut six = gpio.get_pin(6).unwrap();

    let mut out5 = five.as_output(&mut gpio);
    out5.set_high(&mut gpio);
    out5.release(&mut gpio);

    let mut out6 = six.as_output(&mut gpio);
    out6.set_high(&mut gpio);
    out6.release(&mut gpio);

    let mut out5 = five.as_output(&mut gpio);
    out5.set_low(&mut gpio);
    out5.release(&mut gpio);

    let in6 = six.as_input(&mut gpio);
    assert_eq!(in6.read(&gpio), Level::High);
    in6.release(&mut gpio).unwrap();
    let in5 = five.as_input(&mut gpio);
    assert_eq!(in5.read(&gpio), Level::Low);
    in5.release(&mut gpio).unwrap();
}

#[test]
fn guard_restores_prior_mode_at_release() {
    let (mut gpio, _registry) = fresh();
    let mut pin = gpio.get_pin(17).unwrap();
    assert_eq!(pin.mode(&gpio), Mode::Input);

    let out = pin.as_output_with_mode(&mut gpio, Mode::Alt1);
    assert_eq!(pin.mode(&gpio), Mode::Alt1);
    out.release(&mut gpio);
    assert_eq!(pin.mode(&gpio), Mode::Input);
}

#[test]
fn suppressed_guard_keeps_the_new_mode() {
    let (mut gpio, _registry) = fresh();
    let mut pin = gpio.get_pin(20).unwrap();

    let mut out = pin.as_output(&mut gpio);
    out.set_clear_on_drop(false);
    assert!(!out.clear_on_drop());
    out.release(&mut gpio);
    assert_eq!(pin.mode(&gpio), Mode::Output);

    // A later guard capturing Output as the prior mode restores it.
    let inp = pin.as_input(&mut gpio);
    assert_eq!(pin.mode(&gpio), Mode::Input);
    inp.release(&mut gpio).unwrap();
    assert_eq!(pin.mode(&gpio), Mode::Output);
}

#[test]
fn unchanged_mode_is_a_noop_guard() {
    let (mut gpio, _registry) = fresh();
    let mut pin = gpio.get_pin(9).unwrap();
    assert_eq!(pin.mode(&gpio), Mode::Input);
    let inp = pin.as_input(&mut gpio);
    inp.release(&mut gpio).unwrap();
    assert_eq!(pin.mode(&gpio), Mode::Input);
}

#[test]
fn strobe_writes_land_in_the_level_register() {
    let mut regs = gpio::Registers::new();
    // A one bit written through the set strobe raises the level bit.
    regs.write(7, 0b1010);
    assert_eq!(regs.read(13), 0b1010);
    // A one bit written through the clear strobe lowers it.
    regs.write(10, 0b0010);
    assert_eq!(regs.read(13), 0b1000);
    // The strobe words themselves store nothing.
    assert_eq!(regs.read(7), 0);
    assert_eq!(regs.read(10), 0);
    // Any other word is plain storage.
    regs.write(0, 0b111);
    assert_eq!(regs.read(0), 0b111);
}

#[test]
fn pull_sequence_has_the_documented_order_and_holds() {
    let steps = pull_sequence(3, PullUpDown::PullUp, 0);
    assert_eq!(steps.len(), 6);
    assert_eq!(steps[0], PullStep::WriteReg { offset: 37, value: 0b10 });
    match steps[1] {
        PullStep::Settle { min_nanos } => assert!(min_nanos >= 20000),
        _ => panic!("second step must be a settle"),
    }
    assert_eq!(steps[2], PullStep::WriteReg { offset: 38, value: 1 << 3 });
    match steps[3] {
        PullStep::Settle { min_nanos } => assert!(min_nanos >= 20000),
        _ => panic!("fourth step must be a settle"),
    }
    assert_eq!(steps[4], PullStep::WriteReg { offset: 37, value: 0 });
    assert_eq!(steps[5], PullStep::WriteReg { offset: 38, value: 0 });
}

#[test]
fn pull_sequence_keeps_the_other_control_bits() {
    let steps = pull_sequence(40, PullUpDown::PullDown, 0xffff_ff00);
    assert_eq!(
        steps[0],
        PullStep::WriteReg { offset: 37, value: (0xffff_ff00u32 & !0b11) | 0b01 }
    );
    // Pin 40 clocks through the second pull-clock register.
    assert_eq!(steps[2], PullStep::WriteReg { offset: 39, value: 1 << 8 });
    assert_eq!(steps[4], PullStep::WriteReg { offset: 37, value: 0xffff_ff00u32 & !0b11 });
    assert_eq!(steps[5], PullStep::WriteReg { offset: 39, value: 0 });
}

#[test]
fn set_pullupdown_checks_the_pin_and_the_bus() {
    let (mut gpio, mut registry) = fresh();
    assert_eq!(gpio.set_pullupdown(54, PullUpDown::Off), Err(Error::InvalidPin(54)));
    assert_eq!(gpio.set_pullupdown(12, PullUpDown::PullUp), Ok(()));
    let pin = gpio.get_pin(12).unwrap();
    assert_eq!(pin.set_pullupdown(&mut gpio, PullUpDown::Off), Ok(()));
    gpio.cleanup(&mut registry).unwrap();
    assert!(matches!(gpio.set_pullupdown(12, PullUpDown::Off), Err(Error::Io(_))));
}
