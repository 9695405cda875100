//! Pin accessors and scoped input/output guards.
//!
//! A pin accessor is handed out by the top-level handle after the index is
//! range-checked. Converting it into a guard captures the pin's current
//! mode: if the mode already equals the target nothing is remembered and
//! scope exit is a verified no-op, otherwise the target mode is written and
//! the prior mode is restored at scope exit unless restoration was
//! suppressed. Finalizers do not run on abnormal process termination, so
//! every guard exposes `release` as the explicit teardown entry point; an
//! input guard's release also force-disarms any asynchronous interrupt
//! still registered on the pin, so no live line-event handle leaks.

use vstd::prelude::*;

use crate::CLOSED_HANDLE_ERRNO;
use crate::Error;
use crate::events::EdgeEvent;
use crate::events::spec_discard;
use crate::events::spec_poll;
use crate::events::spec_valid_wake;
use crate::handle::Gpio;
use crate::handle::spec_same_admin;
use crate::handle::spec_same_state;
use crate::handle::spec_worker_failed;
use crate::pull::spec_apply_steps;
use crate::pull::spec_pudclk_word;
use crate::pull::spec_pull_sequence;
use crate::regs::GPPUD;
use crate::regs::MAX_PINS;
use crate::regs::spec_pin_level;
use crate::regs::spec_pin_mode;
use crate::regs::spec_set_pin_mode;
use crate::regs::spec_write_pin_level;
use crate::types::Level;
use crate::types::Mode;
use crate::types::PullUpDown;
use crate::types::Trigger;

verus! {

/// Accessor for one pin of the fixed table; its index is always in range.
pub struct Pin {
    number: u8,
}

impl Pin {
    /// The pin's index.
    pub closed spec fn spec_number(self) -> u8 {
        self.number
    }

    /// The index lies in the supported range.
    pub open spec fn wf(self) -> bool {
        self.spec_number() < MAX_PINS
    }

    /// Builds the accessor; the handle has range-checked the index.
    pub(crate) fn new(number: u8) -> (p: Pin)
        requires
            number < MAX_PINS,
        ensures
            p.wf(),
            p.spec_number() == number,
    {
        Pin { number }
    }

    /// The pin's index.
    pub fn number(&self) -> (r: u8)
        ensures
            r == self.spec_number(),
    {
        self.number
    }

    /// The pin's current mode, decoded from its function select field.
    pub fn mode(&self, gpio: &Gpio) -> (m: Mode)
        requires
            self.wf(),
            gpio.wf(),
            gpio.spec_initialized(),
        ensures
            m == spec_pin_mode(gpio.regs(), self.spec_number()),
    {
        gpio.pin_mode_read(self.number)
    }

    /// Configures the pin's built-in pull resistor through the handle's
    /// timed pull sequence: on a live handle the page ends exactly as the
    /// pin's pull sequence leaves it, with the control code and the pin's
    /// clock word reading cleared and no level or mode moved.
    pub fn set_pullupdown(&self, gpio: &mut Gpio, pud: PullUpDown) -> (r: Result<(), Error>)
        requires
            self.wf(),
            old(gpio).wf(),
        ensures
            final(gpio).wf(),
            spec_same_admin(*old(gpio), *final(gpio)),
            final(gpio).triggers() == old(gpio).triggers(),
            final(gpio).cached() == old(gpio).cached(),
            final(gpio).workers() == old(gpio).workers(),
            !old(gpio).spec_initialized() ==> r == Err::<(), Error>(Error::Io(CLOSED_HANDLE_ERRNO))
                && final(gpio).regs() == old(gpio).regs(),
            old(gpio).spec_initialized() ==> {
                &&& r == Ok::<(), Error>(())
                &&& final(gpio).regs() == spec_apply_steps(
                    old(gpio).regs(),
                    spec_pull_sequence(
                        self.spec_number(),
                        pud,
                        old(gpio).regs()[GPPUD as int],
                    ),
                    0,
                )
                &&& final(gpio).regs()[GPPUD as int] == old(gpio).regs()[GPPUD as int]
                    & !0b11u32
                &&& final(gpio).regs()[spec_pudclk_word(self.spec_number())] == 0u32
                &&& forall|q: u8|
                    q < MAX_PINS ==> spec_pin_level(final(gpio).regs(), q) == spec_pin_level(
                        old(gpio).regs(),
                        q,
                    )
                &&& forall|q: u8|
                    q < MAX_PINS ==> spec_pin_mode(final(gpio).regs(), q) == spec_pin_mode(
                        old(gpio).regs(),
                        q,
                    )
            },
    {
        gpio.set_pullupdown(self.number, pud)
    }

    /// Converts the pin into an input guard, capturing the prior mode.
    pub fn as_input(&mut self, gpio: &mut Gpio) -> (g: InputPin)
        requires
            old(self).wf(),
            old(gpio).wf(),
            old(gpio).spec_initialized(),
        ensures
            *final(self) == *old(self),
            final(gpio).wf(),
            spec_same_admin(*old(gpio), *final(gpio)),
            final(gpio).triggers() == old(gpio).triggers(),
            final(gpio).cached() == old(gpio).cached(),
            final(gpio).workers() == old(gpio).workers(),
            g.wf(),
            g.spec_pin() == old(self).spec_number(),
            g.spec_clear_on_drop(),
            ({
                let m0 = spec_pin_mode(old(gpio).regs(), old(self).spec_number());
                &&& g.spec_prev_mode() == (if m0 == Mode::Input {
                    None::<Mode>
                } else {
                    Some(m0)
                })
                &&& final(gpio).regs() == (if m0 == Mode::Input {
                    old(gpio).regs()
                } else {
                    spec_set_pin_mode(old(gpio).regs(), old(self).spec_number(), Mode::Input)
                })
            }),
    {
        InputPin::new(self.number, gpio)
    }

    /// Converts the pin into an output guard driving in `Output` mode.
    pub fn as_output(&mut self, gpio: &mut Gpio) -> (g: OutputPin)
        requires
            old(self).wf(),
            old(gpio).wf(),
            old(gpio).spec_initialized(),
        ensures
            *final(self) == *old(self),
            final(gpio).wf(),
            spec_same_admin(*old(gpio), *final(gpio)),
            final(gpio).triggers() == old(gpio).triggers(),
            final(gpio).cached() == old(gpio).cached(),
            final(gpio).workers() == old(gpio).workers(),
            g.wf(),
            g.spec_pin() == old(self).spec_number(),
            g.spec_mode() == Mode::Output,
            g.spec_clear_on_drop(),
            ({
                let m0 = spec_pin_mode(old(gpio).regs(), old(self).spec_number());
                &&& g.spec_prev_mode() == (if m0 == Mode::Output {
                    None::<Mode>
                } else {
                    Some(m0)
                })
                &&& final(gpio).regs() == (if m0 == Mode::Output {
                    old(gpio).regs()
                } else {
                    spec_set_pin_mode(old(gpio).regs(), old(self).spec_number(), Mode::Output)
                })
            }),
    {
        OutputPin::new(self.number, gpio, Mode::Output)
    }

    /// Converts the pin into an output guard driving in `mode` — one of
    /// the alternate functions, or plain output.
    pub fn as_output_with_mode(&mut self, gpio: &mut Gpio, mode: Mode) -> (g: OutputPin)
        requires
            old(self).wf(),
            old(gpio).wf(),
            old(gpio).spec_initialized(),
        ensures
            *final(self) == *old(self),
            final(gpio).wf(),
            spec_same_admin(*old(gpio), *final(gpio)),
            final(gpio).triggers() == old(gpio).triggers(),
            final(gpio).cached() == old(gpio).cached(),
            final(gpio).workers() == old(gpio).workers(),
            g.wf(),
            g.spec_pin() == old(self).spec_number(),
            g.spec_mode() == mode,
            g.spec_clear_on_drop(),
            ({
                let m0 = spec_pin_mode(old(gpio).regs(), old(self).spec_number());
                &&& g.spec_prev_mode() == (if m0 == mode {
                    None::<Mode>
                } else {
                    Some(m0)
                })
                &&& final(gpio).regs() == (if m0 == mode {
                    old(gpio).regs()
                } else {
                    spec_set_pin_mode(old(gpio).regs(), old(self).spec_number(), mode)
                })
            }),
    {
        OutputPin::new(self.number, gpio, mode)
    }
}

/// Scoped input guard: reads levels, configures interrupts, and restores
/// the pin's prior mode at release unless suppressed.
pub struct InputPin {
    pin: u8,
    prev_mode: Option<Mode>,
    clear_on_drop: bool,
}

impl InputPin {
    /// The guarded pin's index.
    pub closed spec fn spec_pin(self) -> u8 {
        self.pin
    }

    /// The mode to restore at release; nothing when the pin already was an
    /// input at capture.
    pub closed spec fn spec_prev_mode(self) -> Option<Mode> {
        self.prev_mode
    }

    /// Whether release restores the prior mode.
    pub closed spec fn spec_clear_on_drop(self) -> bool {
        self.clear_on_drop
    }

    /// The index lies in the supported range.
    pub open spec fn wf(self) -> bool {
        self.spec_pin() < MAX_PINS
    }

    /// Captures the pin's mode and makes it an input; a pin already in
    /// input mode is left untouched and nothing is remembered.
    pub(crate) fn new(pin: u8, gpio: &mut Gpio) -> (g: InputPin)
        requires
            old(gpio).wf(),
            old(gpio).spec_initialized(),
            pin < MAX_PINS,
        ensures
            final(gpio).wf(),
            spec_same_admin(*old(gpio), *final(gpio)),
            final(gpio).triggers() == old(gpio).triggers(),
            final(gpio).cached() == old(gpio).cached(),
            final(gpio).workers() == old(gpio).workers(),
            g.wf(),
            g.spec_pin() == pin,
            g.spec_clear_on_drop(),
            ({
                let m0 = spec_pin_mode(old(gpio).regs(), pin);
                &&& g.spec_prev_mode() == (if m0 == Mode::Input {
                    None::<Mode>
                } else {
                    Some(m0)
                })
                &&& final(gpio).regs() == (if m0 == Mode::Input {
                    old(gpio).regs()
                } else {
                    spec_set_pin_mode(old(gpio).regs(), pin, Mode::Input)
                })
            }),
    {
        let current = gpio.pin_mode_read(pin);
        let prev_mode: Option<Mode> = if let Mode::Input = current {
            None
        } else {
            gpio.set_pin_mode(pin, Mode::Input);
            Some(current)
        };
        InputPin { pin, prev_mode, clear_on_drop: true }
    }

    /// Returns the value of `clear_on_drop`.
    pub fn clear_on_drop(&self) -> (r: bool)
        ensures
            r == self.spec_clear_on_drop(),
    {
        self.clear_on_drop
    }

    /// When enabled, `release` restores the pin's prior mode. Finalizers
    /// do not run on abnormal process termination; call `release` by hand
    /// to be sure.
    pub fn set_clear_on_drop(&mut self, clear_on_drop: bool)
        ensures
            final(self).spec_clear_on_drop() == clear_on_drop,
            final(self).spec_pin() == old(self).spec_pin(),
            final(self).spec_prev_mode() == old(self).spec_prev_mode(),
            final(self).wf() == old(self).wf(),
    {
        self.clear_on_drop = clear_on_drop;
    }

    /// Reads the pin's level bit from its level register.
    pub fn read(&self, gpio: &Gpio) -> (l: Level)
        requires
            self.wf(),
            gpio.wf(),
            gpio.spec_initialized(),
        ensures
            l == spec_pin_level(gpio.regs(), self.spec_pin()),
    {
        gpio.read_pin_level(self.pin)
    }

    /// Configures a synchronous trigger on the guarded pin; a live
    /// asynchronous worker is torn down first.
    pub fn set_interrupt(&mut self, gpio: &mut Gpio, trigger: Trigger) -> (r: Result<(), Error>)
        requires
            old(self).wf(),
            old(gpio).wf(),
        ensures
            *final(self) == *old(self),
            final(gpio).wf(),
            spec_same_admin(*old(gpio), *final(gpio)),
            final(gpio).regs() == old(gpio).regs(),
            !old(gpio).spec_initialized() ==> r == Err::<(), Error>(Error::Io(CLOSED_HANDLE_ERRNO))
                && spec_same_state(*old(gpio), *final(gpio)),
            old(gpio).spec_initialized() ==> {
                &&& final(gpio).workers() == old(gpio).workers().update(
                    old(self).spec_pin() as int,
                    None::<crate::worker::AsyncWorker>,
                )
                &&& if spec_worker_failed(old(gpio).workers(), old(self).spec_pin()) {
                    &&& r == Err::<(), Error>(Error::ThreadPanic)
                    &&& final(gpio).triggers() == old(gpio).triggers()
                    &&& final(gpio).cached() == old(gpio).cached()
                } else {
                    &&& r == Ok::<(), Error>(())
                    &&& final(gpio).triggers() == old(gpio).triggers().update(
                        old(self).spec_pin() as int,
                        trigger,
                    )
                    &&& final(gpio).cached() == old(gpio).cached().update(
                        old(self).spec_pin() as int,
                        None::<crate::events::CachedEdge>,
                    )
                }
            },
    {
        gpio.set_interrupt(self.pin, trigger)
    }

    /// Removes the pin's synchronous trigger and its cached edge.
    pub fn clear_interrupt(&mut self, gpio: &mut Gpio) -> (r: Result<(), Error>)
        requires
            old(self).wf(),
            old(gpio).wf(),
        ensures
            *final(self) == *old(self),
            final(gpio).wf(),
            spec_same_admin(*old(gpio), *final(gpio)),
            final(gpio).regs() == old(gpio).regs(),
            final(gpio).workers() == old(gpio).workers(),
            !old(gpio).spec_initialized() ==> r == Err::<(), Error>(Error::Io(CLOSED_HANDLE_ERRNO))
                && spec_same_state(*old(gpio), *final(gpio)),
            old(gpio).spec_initialized() ==> {
                &&& r == Ok::<(), Error>(())
                &&& final(gpio).triggers() == old(gpio).triggers().update(
                    old(self).spec_pin() as int,
                    Trigger::Disabled,
                )
                &&& final(gpio).cached() == old(gpio).cached().update(
                    old(self).spec_pin() as int,
                    None::<crate::events::CachedEdge>,
                )
            },
    {
        gpio.clear_interrupt(self.pin)
    }

    /// Waits for one edge on the guarded pin; `wake` carries what the
    /// readiness wait delivered, empty on a timeout.
    pub fn poll_interrupt(&mut self, gpio: &mut Gpio, reset: bool, wake: &Vec<EdgeEvent>) -> (r:
        Result<Option<Level>, Error>)
        requires
            old(self).wf(),
            old(gpio).wf(),
            spec_valid_wake(wake@, old(gpio).triggers()),
        ensures
            *final(self) == *old(self),
            final(gpio).wf(),
            spec_same_admin(*old(gpio), *final(gpio)),
            final(gpio).regs() == old(gpio).regs(),
            final(gpio).triggers() == old(gpio).triggers(),
            final(gpio).workers() == old(gpio).workers(),
            !old(gpio).spec_initialized() ==> r == Err::<Option<Level>, Error>(
                Error::Io(CLOSED_HANDLE_ERRNO),
            ) && final(gpio).cached() == old(gpio).cached(),
            old(gpio).spec_initialized() ==> ({
                let c0 = if reset {
                    spec_discard(old(gpio).cached(), seq![old(self).spec_pin()])
                } else {
                    old(gpio).cached()
                };
                let outcome = spec_poll(c0, seq![old(self).spec_pin()], wake@);
                r == Ok::<Option<Level>, Error>(
                    match outcome.0 {
                        Some(pair) => Some(pair.1),
                        None => None,
                    },
                ) && final(gpio).cached() == outcome.1
            }),
    {
        gpio.poll_interrupt(self.pin, reset, wake)
    }

    /// Arms an asynchronous trigger on the guarded pin; the synchronous
    /// registration and any prior worker are torn down first.
    pub fn set_async_interrupt(&mut self, gpio: &mut Gpio, trigger: Trigger) -> (r: Result<
        (),
        Error,
    >)
        requires
            old(self).wf(),
            old(gpio).wf(),
        ensures
            *final(self) == *old(self),
            final(gpio).wf(),
            spec_same_admin(*old(gpio), *final(gpio)),
            final(gpio).regs() == old(gpio).regs(),
            !old(gpio).spec_initialized() ==> r == Err::<(), Error>(Error::Io(CLOSED_HANDLE_ERRNO))
                && spec_same_state(*old(gpio), *final(gpio)),
            old(gpio).spec_initialized() ==> {
                &&& final(gpio).triggers() == old(gpio).triggers().update(
                    old(self).spec_pin() as int,
                    Trigger::Disabled,
                )
                &&& final(gpio).cached() == old(gpio).cached().update(
                    old(self).spec_pin() as int,
                    None::<crate::events::CachedEdge>,
                )
                &&& forall|q: int|
                    0 <= q < MAX_PINS && q != old(self).spec_pin() ==> final(gpio).workers()[q]
                        == old(gpio).workers()[q]
                &&& if spec_worker_failed(old(gpio).workers(), old(self).spec_pin()) {
                    r == Err::<(), Error>(Error::ThreadPanic) && final(gpio).workers()[old(
                        self,
                    ).spec_pin() as int] is None
                } else {
                    r == Ok::<(), Error>(()) && (final(gpio).workers()[old(self).spec_pin() as int]
                        matches Some(w) && w.spec_running() && w.spec_trigger() == trigger
                        && !w.spec_failed() && w.spec_invocations() == 0)
                }
            },
    {
        gpio.set_async_interrupt(self.pin, trigger)
    }

    /// Stops and removes the pin's asynchronous worker, surfacing an
    /// abnormal thread termination; a no-op without one.
    pub fn clear_async_interrupt(&mut self, gpio: &mut Gpio) -> (r: Result<(), Error>)
        requires
            old(self).wf(),
            old(gpio).wf(),
        ensures
            *final(self) == *old(self),
            final(gpio).wf(),
            spec_same_admin(*old(gpio), *final(gpio)),
            final(gpio).regs() == old(gpio).regs(),
            final(gpio).triggers() == old(gpio).triggers(),
            final(gpio).cached() == old(gpio).cached(),
            !old(gpio).spec_initialized() ==> r == Err::<(), Error>(Error::Io(CLOSED_HANDLE_ERRNO))
                && spec_same_state(*old(gpio), *final(gpio)),
            old(gpio).spec_initialized() ==> {
                &&& final(gpio).workers() == old(gpio).workers().update(
                    old(self).spec_pin() as int,
                    None::<crate::worker::AsyncWorker>,
                )
                &&& r == if spec_worker_failed(old(gpio).workers(), old(self).spec_pin()) {
                    Err::<(), Error>(Error::ThreadPanic)
                } else {
                    Ok::<(), Error>(())
                }
            },
    {
        gpio.clear_async_interrupt(self.pin)
    }

    /// Ends the guard's scope: force-disarms any asynchronous interrupt
    /// still registered on the pin, then restores the captured prior mode
    /// — unless restoration was suppressed, or the mode was unchanged at
    /// capture, in which case the page is verifiably untouched.
    pub fn release(self, gpio: &mut Gpio) -> (r: Result<(), Error>)
        requires
            self.wf(),
            old(gpio).wf(),
        ensures
            final(gpio).wf(),
            spec_same_admin(*old(gpio), *final(gpio)),
            final(gpio).triggers() == old(gpio).triggers(),
            final(gpio).cached() == old(gpio).cached(),
            !old(gpio).spec_initialized() ==> r == Err::<(), Error>(Error::Io(CLOSED_HANDLE_ERRNO))
                && spec_same_state(*old(gpio), *final(gpio)),
            old(gpio).spec_initialized() ==> {
                &&& final(gpio).workers() == old(gpio).workers().update(
                    self.spec_pin() as int,
                    None::<crate::worker::AsyncWorker>,
                )
                &&& final(gpio).regs() == (match self.spec_prev_mode() {
                    Some(m) => if self.spec_clear_on_drop() {
                        spec_set_pin_mode(old(gpio).regs(), self.spec_pin(), m)
                    } else {
                        old(gpio).regs()
                    },
                    None => old(gpio).regs(),
                })
                &&& r == if spec_worker_failed(old(gpio).workers(), self.spec_pin()) {
                    Err::<(), Error>(Error::ThreadPanic)
                } else {
                    Ok::<(), Error>(())
                }
            },
    {
        let teardown = gpio.clear_async_interrupt(self.pin);
        if gpio.is_initialized() {
            if self.clear_on_drop {
                if let Some(m) = self.prev_mode {
                    gpio.set_pin_mode(self.pin, m);
                }
            }
        }
        teardown
    }
}

/// Scoped output guard: drives the pin's level and restores the pin's
/// prior mode at release unless suppressed.
pub struct OutputPin {
    pin: u8,
    mode: Mode,
    prev_mode: Option<Mode>,
    clear_on_drop: bool,
}

impl OutputPin {
    /// The guarded pin's index.
    pub closed spec fn spec_pin(self) -> u8 {
        self.pin
    }

    /// The mode the guard drives the pin in.
    pub closed spec fn spec_mode(self) -> Mode {
        self.mode
    }

    /// The mode to restore at release; nothing when the pin already held
    /// the target mode at capture.
    pub closed spec fn spec_prev_mode(self) -> Option<Mode> {
        self.prev_mode
    }

    /// Whether release restores the prior mode.
    pub closed spec fn spec_clear_on_drop(self) -> bool {
        self.clear_on_drop
    }

    /// The index lies in the supported range.
    pub open spec fn wf(self) -> bool {
        self.spec_pin() < MAX_PINS
    }

    /// Captures the pin's mode and makes it `mode`; a pin already in that
    /// mode is left untouched and nothing is remembered.
    pub(crate) fn new(pin: u8, gpio: &mut Gpio, mode: Mode) -> (g: OutputPin)
        requires
            old(gpio).wf(),
            old(gpio).spec_initialized(),
            pin < MAX_PINS,
        ensures
            final(gpio).wf(),
            spec_same_admin(*old(gpio), *final(gpio)),
            final(gpio).triggers() == old(gpio).triggers(),
            final(gpio).cached() == old(gpio).cached(),
            final(gpio).workers() == old(gpio).workers(),
            g.wf(),
            g.spec_pin() == pin,
            g.spec_mode() == mode,
            g.spec_clear_on_drop(),
            ({
                let m0 = spec_pin_mode(old(gpio).regs(), pin);
                &&& g.spec_prev_mode() == (if m0 == mode {
                    None::<Mode>
                } else {
                    Some(m0)
                })
                &&& final(gpio).regs() == (if m0 == mode {
                    old(gpio).regs()
                } else {
                    spec_set_pin_mode(old(gpio).regs(), pin, mode)
                })
            }),
    {
        let current = gpio.pin_mode_read(pin);
        let prev_mode: Option<Mode> = if current == mode {
            None
        } else {
            gpio.set_pin_mode(pin, mode);
            Some(current)
        };
        OutputPin { pin, mode, prev_mode, clear_on_drop: true }
    }

    /// Returns the value of `clear_on_drop`.
    pub fn clear_on_drop(&self) -> (r: bool)
        ensures
            r == self.spec_clear_on_drop(),
    {
        self.clear_on_drop
    }

    /// When enabled, `release` restores the pin's prior mode. Finalizers
    /// do not run on abnormal process termination; call `release` by hand
    /// to be sure.
    pub fn set_clear_on_drop(&mut self, clear_on_drop: bool)
        ensures
            final(self).spec_clear_on_drop() == clear_on_drop,
            final(self).spec_pin() == old(self).spec_pin(),
            final(self).spec_mode() == old(self).spec_mode(),
            final(self).spec_prev_mode() == old(self).spec_prev_mode(),
            final(self).wf() == old(self).wf(),
    {
        self.clear_on_drop = clear_on_drop;
    }

    /// Drives the pin low through the clear strobe.
    pub fn set_low(&mut self, gpio: &mut Gpio)
        requires
            old(self).wf(),
            old(gpio).wf(),
            old(gpio).spec_initialized(),
        ensures
            *final(self) == *old(self),
            final(gpio).wf(),
            spec_same_admin(*old(gpio), *final(gpio)),
            final(gpio).triggers() == old(gpio).triggers(),
            final(gpio).cached() == old(gpio).cached(),
            final(gpio).workers() == old(gpio).workers(),
            final(gpio).regs() == spec_write_pin_level(
                old(gpio).regs(),
                old(self).spec_pin(),
                Level::Low,
            ),
    {
        self.write(gpio, Level::Low)
    }

    /// Drives the pin high through the set strobe.
    pub fn set_high(&mut self, gpio: &mut Gpio)
        requires
            old(self).wf(),
            old(gpio).wf(),
            old(gpio).spec_initialized(),
        ensures
            *final(self) == *old(self),
            final(gpio).wf(),
            spec_same_admin(*old(gpio), *final(gpio)),
            final(gpio).triggers() == old(gpio).triggers(),
            final(gpio).cached() == old(gpio).cached(),
            final(gpio).workers() == old(gpio).workers(),
            final(gpio).regs() == spec_write_pin_level(
                old(gpio).regs(),
                old(self).spec_pin(),
                Level::High,
            ),
    {
        self.write(gpio, Level::High)
    }

    /// Drives the pin to `level` through the set or clear strobe for its
    /// register word; only the pin's own level bit moves.
    pub fn write(&mut self, gpio: &mut Gpio, level: Level)
        requires
            old(self).wf(),
            old(gpio).wf(),
            old(gpio).spec_initialized(),
        ensures
            *final(self) == *old(self),
            final(gpio).wf(),
            spec_same_admin(*old(gpio), *final(gpio)),
            final(gpio).triggers() == old(gpio).triggers(),
            final(gpio).cached() == old(gpio).cached(),
            final(gpio).workers() == old(gpio).workers(),
            final(gpio).regs() == spec_write_pin_level(
                old(gpio).regs(),
                old(self).spec_pin(),
                level,
            ),
    {
        gpio.write_pin_level(self.pin, level)
    }

    /// Ends the guard's scope: restores the captured prior mode — unless
    /// restoration was suppressed, or the mode was unchanged at capture,
    /// in which case the page is verifiably untouched.
    pub fn release(self, gpio: &mut Gpio)
        requires
            self.wf(),
            old(gpio).wf(),
        ensures
            final(gpio).wf(),
            spec_same_admin(*old(gpio), *final(gpio)),
            final(gpio).triggers() == old(gpio).triggers(),
            final(gpio).cached() == old(gpio).cached(),
            final(gpio).workers() == old(gpio).workers(),
            !old(gpio).spec_initialized() ==> final(gpio).regs() == old(gpio).regs(),
            old(gpio).spec_initialized() ==> final(gpio).regs() == (match self.spec_prev_mode() {
                Some(m) => if self.spec_clear_on_drop() {
                    spec_set_pin_mode(old(gpio).regs(), self.spec_pin(), m)
                } else {
                    old(gpio).regs()
                },
                None => old(gpio).regs(),
            }),
    {
        if gpio.is_initialized() {
            if self.clear_on_drop {
                if let Some(m) = self.prev_mode {
                    gpio.set_pin_mode(self.pin, m);
                }
            }
        }
    }
}

} // verus!
