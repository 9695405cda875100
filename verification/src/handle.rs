//! The top-level GPIO handle: owner of the register page, the interrupt
//! event loop and the asynchronous workers, constructed at most once per
//! process and torn down exactly.
//!
//! Everything the operating system contributes to construction — the two
//! register-bus open attempts and the controller discovery probes — reaches
//! `new` as plain values, so the whole lifecycle rule is verified: the
//! single-instance claim is taken first and released on every failing path,
//! a pin never carries a synchronous and an asynchronous trigger at once,
//! and after teardown every operation reports an error instead of touching
//! the closed bus.

use vstd::prelude::*;

use crate::CLOSED_HANDLE_ERRNO;
use crate::Error;
use crate::bus::BusProbe;
use crate::bus::BusSource;
use crate::bus::resolve_bus;
use crate::bus::spec_resolve_bus;
use crate::discovery::CandidateProbe;
use crate::discovery::MAX_CANDIDATES;
use crate::discovery::find_driver;
use crate::discovery::spec_find_driver;
use crate::events::CachedEdge;
use crate::events::EdgeEvent;
use crate::events::EventLoop;
use crate::events::spec_discard;
use crate::events::spec_poll;
use crate::events::spec_valid_wake;
use crate::pull::PullStep;
use crate::pull::apply_pull_steps;
use crate::pull::pull_sequence;
use crate::pull::spec_apply_steps;
use crate::pull::spec_pudclk_word;
use crate::pull::spec_pull_sequence;
use crate::regs::GPPUD;
use crate::regs::GPPUDCLK;
use crate::regs::MAX_PINS;
use crate::regs::REG_WORDS;
use crate::regs::Registers;
use crate::regs::spec_pin_level;
use crate::regs::spec_pin_mode;
use crate::regs::spec_set_pin_mode;
use crate::regs::spec_write_pin_level;
use crate::registry::InstanceRegistry;
use crate::types::Level;
use crate::types::Mode;
use crate::types::PullUpDown;
use crate::types::Trigger;
use crate::worker::AsyncWorker;
use crate::worker::WorkerEvent;
use crate::worker::spec_step_rel;

verus! {

/// Whether every requested pin is in range; if not, the first offender's
/// error.
pub open spec fn spec_check_pins(pins: Seq<u8>, i: int) -> Result<(), Error>
    decreases pins.len() - i,
{
    if i < 0 || i >= pins.len() {
        Ok(())
    } else if pins[i] >= MAX_PINS {
        Err(Error::InvalidPin(pins[i]))
    } else {
        spec_check_pins(pins, i + 1)
    }
}

/// Whether the handle's administrative state — bus, restore flag, chip and
/// source — is the same in `a` and `b`.
pub open spec fn spec_same_admin(a: Gpio, b: Gpio) -> bool {
    &&& b.spec_initialized() == a.spec_initialized()
    &&& b.spec_clear_on_drop() == a.spec_clear_on_drop()
    &&& b.spec_chip() == a.spec_chip()
    &&& b.spec_source() == a.spec_source()
}

/// Whether the whole observable state of the handle is the same in `a` and
/// `b`: a rejected operation leaves the handle exactly as it was.
pub open spec fn spec_same_state(a: Gpio, b: Gpio) -> bool {
    &&& spec_same_admin(a, b)
    &&& b.regs() == a.regs()
    &&& b.triggers() == a.triggers()
    &&& b.cached() == a.cached()
    &&& b.workers() == a.workers()
}

/// Whether tearing down `pin`'s asynchronous worker would surface an
/// abnormal termination of its thread.
pub open spec fn spec_worker_failed(workers: Seq<Option<AsyncWorker>>, pin: u8) -> bool {
    workers[pin as int] matches Some(w) && w.spec_failed()
}

/// Provides access to the GPIO peripheral: the register page, the
/// synchronous interrupt event loop, and the per-pin asynchronous workers.
pub struct Gpio {
    initialized: bool,
    clear_on_drop: bool,
    registers: Registers,
    events: EventLoop,
    workers: Vec<Option<AsyncWorker>>,
    chip: u8,
    source: BusSource,
}

impl Gpio {
    /// Whether the register bus is open; false after teardown.
    pub closed spec fn spec_initialized(self) -> bool {
        self.initialized
    }

    /// Whether scoped guards restore pin modes when they end.
    pub closed spec fn spec_clear_on_drop(self) -> bool {
        self.clear_on_drop
    }

    /// The register page.
    pub closed spec fn regs(self) -> Seq<u32> {
        self.registers@
    }

    /// The synchronous trigger registered per pin.
    pub closed spec fn triggers(self) -> Seq<Trigger> {
        self.events.triggers()
    }

    /// The pending cached edge per pin.
    pub closed spec fn cached(self) -> Seq<Option<CachedEdge>> {
        self.events.cached()
    }

    /// The asynchronous registration per pin.
    pub closed spec fn workers(self) -> Seq<Option<AsyncWorker>> {
        self.workers@
    }

    /// The candidate index discovery selected for the controller device.
    pub closed spec fn spec_chip(self) -> u8 {
        self.chip
    }

    /// Which device path the register bus was opened through.
    pub closed spec fn spec_source(self) -> BusSource {
        self.source
    }

    /// Well-formedness: full-size tables, and a pin is never armed for a
    /// synchronous and an asynchronous trigger at once.
    pub open spec fn wf(self) -> bool {
        &&& self.regs().len() == REG_WORDS
        &&& self.triggers().len() == MAX_PINS
        &&& self.cached().len() == MAX_PINS
        &&& self.workers().len() == MAX_PINS
        &&& forall|p: int|
            0 <= p < MAX_PINS && self.triggers()[p] is Disabled ==> self.cached()[p] is None
        &&& forall|p: int|
            0 <= p < MAX_PINS && !(self.triggers()[p] is Disabled) ==> self.workers()[p] is None
    }

    /// Constructs the top-level handle. The single-instance claim is taken
    /// before anything else; if the bus cannot be resolved or discovery
    /// fails, the claim is released again before the error returns, so a
    /// failed construction never leaves the process believing a handle is
    /// live.
    pub fn new(
        registry: &mut InstanceRegistry,
        primary: BusProbe,
        fallback: BusProbe,
        candidates: &Vec<CandidateProbe>,
    ) -> (r: Result<Gpio, Error>)
        requires
            candidates@.len() <= MAX_CANDIDATES,
        ensures
            old(registry).is_live() ==> r == Err::<Gpio, Error>(Error::InstanceExists)
                && final(registry).is_live(),
            !old(registry).is_live() ==> match spec_resolve_bus(primary, fallback) {
                Err(e) => r == Err::<Gpio, Error>(e) && !final(registry).is_live(),
                Ok(source) => match spec_find_driver(candidates@, 0) {
                    Err(e) => r == Err::<Gpio, Error>(e) && !final(registry).is_live(),
                    Ok(chip) => final(registry).is_live() && (r matches Ok(g) && {
                        &&& g.wf()
                        &&& g.spec_initialized()
                        &&& g.spec_clear_on_drop()
                        &&& g.spec_chip() == chip
                        &&& g.spec_source() == source
                        &&& forall|i: int| 0 <= i < REG_WORDS ==> g.regs()[i] == 0u32
                        &&& forall|p: int| 0 <= p < MAX_PINS ==> g.triggers()[p] is Disabled
                        &&& forall|p: int| 0 <= p < MAX_PINS ==> g.cached()[p] is None
                        &&& forall|p: int| 0 <= p < MAX_PINS ==> g.workers()[p] is None
                    }),
                },
            },
    {
        if let Err(e) = registry.claim() {
            return Err(e);
        }
        let source = match resolve_bus(primary, fallback) {
            Ok(s) => s,
            Err(e) => {
                registry.release();
                return Err(e);
            },
        };
        let chip = match find_driver(candidates) {
            Ok(c) => c,
            Err(e) => {
                registry.release();
                return Err(e);
            },
        };
        let mut workers: Vec<Option<AsyncWorker>> = Vec::new();
        let mut i: usize = 0;
        while i < MAX_PINS as usize
            invariant
                workers@.len() == i,
                i <= MAX_PINS as usize,
                forall|j: int| 0 <= j < i ==> workers@[j] is None,
            decreases MAX_PINS as usize - i,
        {
            workers.push(None);
            i += 1;
        }
        Ok(
            Gpio {
                initialized: true,
                clear_on_drop: true,
                registers: Registers::new(),
                events: EventLoop::new(),
                workers,
                chip,
                source,
            },
        )
    }

    /// Returns the value of `clear_on_drop`.
    pub fn clear_on_drop(&self) -> (r: bool)
        ensures
            r == self.spec_clear_on_drop(),
    {
        self.clear_on_drop
    }

    /// Records whether pins should be restored to their original modes at
    /// the end of the handle's life. The flag governs mode restoration
    /// only — `cleanup` releases every resource unconditionally. Enabled
    /// by default; finalizers do not run on abnormal process termination,
    /// so explicit `cleanup` is the sanctioned way out then.
    pub fn set_clear_on_drop(&mut self, clear_on_drop: bool)
        ensures
            final(self).spec_clear_on_drop() == clear_on_drop,
            final(self).spec_initialized() == old(self).spec_initialized(),
            final(self).regs() == old(self).regs(),
            final(self).triggers() == old(self).triggers(),
            final(self).cached() == old(self).cached(),
            final(self).workers() == old(self).workers(),
            final(self).spec_chip() == old(self).spec_chip(),
            final(self).spec_source() == old(self).spec_source(),
            final(self).wf() == old(self).wf(),
    {
        self.clear_on_drop = clear_on_drop;
    }

    /// Whether the register bus is still open.
    pub fn is_initialized(&self) -> (r: bool)
        ensures
            r == self.spec_initialized(),
    {
        self.initialized
    }

    /// Tears the handle down: disarms every trigger, stops and removes
    /// every asynchronous worker, closes the register bus and releases the
    /// single-instance claim — resource release always happens, whatever
    /// `clear_on_drop` says. Repeating the call is a safe no-op.
    pub fn cleanup(&mut self, registry: &mut InstanceRegistry) -> (r: Result<(), Error>)
        requires
            old(self).wf(),
        ensures
            final(self).wf(),
            !final(self).spec_initialized(),
            !final(registry).is_live(),
            final(self).regs() == old(self).regs(),
            final(self).spec_clear_on_drop() == old(self).spec_clear_on_drop(),
            final(self).spec_chip() == old(self).spec_chip(),
            final(self).spec_source() == old(self).spec_source(),
            forall|p: int| 0 <= p < MAX_PINS ==> final(self).triggers()[p] is Disabled,
            forall|p: int| 0 <= p < MAX_PINS ==> final(self).cached()[p] is None,
            forall|p: int| 0 <= p < MAX_PINS ==> final(self).workers()[p] is None,
            r == Ok::<(), Error>(()),
    {
        let mut p: u8 = 0;
        while p < MAX_PINS
            invariant
                old(self).wf(),
                self.events.wf(),
                self.workers@.len() == MAX_PINS,
                self.registers@ == old(self).regs(),
                self.initialized == old(self).spec_initialized(),
                self.clear_on_drop == old(self).spec_clear_on_drop(),
                self.chip == old(self).spec_chip(),
                self.source == old(self).spec_source(),
                self.registers.wf(),
                p <= MAX_PINS,
                forall|q: int| 0 <= q < p ==> self.events.triggers()[q] is Disabled,
                forall|q: int| 0 <= q < p ==> self.events.cached()[q] is None,
                forall|q: int| 0 <= q < p ==> self.workers@[q] is None,
            decreases MAX_PINS - p,
        {
            self.events.clear_interrupt(p);
            self.workers[p as usize] = None;
            p += 1;
        }
        self.initialized = false;
        registry.release();
        Ok(())
    }

    /// Configures the built-in pull-up/down resistor of `pin` by replaying
    /// the timed pull sequence against the page. The sequence touches the
    /// two shared pull registers and nothing else: no level and no mode
    /// moves, and both registers read as cleared afterwards. The exclusive
    /// borrow of the handle serializes the sequence against any other
    /// pin's pull configuration.
    pub fn set_pullupdown(&mut self, pin: u8, pud: PullUpDown) -> (r: Result<(), Error>)
        requires
            old(self).wf(),
        ensures
            final(self).wf(),
            spec_same_admin(*old(self), *final(self)),
            final(self).triggers() == old(self).triggers(),
            final(self).cached() == old(self).cached(),
            final(self).workers() == old(self).workers(),
            pin >= MAX_PINS ==> r == Err::<(), Error>(Error::InvalidPin(pin)) && final(self).regs()
                == old(self).regs(),
            pin < MAX_PINS && !old(self).spec_initialized() ==> r == Err::<(), Error>(
                Error::Io(CLOSED_HANDLE_ERRNO),
            ) && final(self).regs() == old(self).regs(),
            pin < MAX_PINS && old(self).spec_initialized() ==> {
                &&& r == Ok::<(), Error>(())
                &&& final(self).regs() == spec_apply_steps(
                    old(self).regs(),
                    spec_pull_sequence(pin, pud, old(self).regs()[GPPUD as int]),
                    0,
                )
                &&& final(self).regs()[GPPUD as int] == old(self).regs()[GPPUD as int] & !0b11u32
                &&& final(self).regs()[spec_pudclk_word(pin)] == 0u32
                &&& forall|q: u8|
                    q < MAX_PINS ==> spec_pin_level(final(self).regs(), q) == spec_pin_level(
                        old(self).regs(),
                        q,
                    )
                &&& forall|q: u8|
                    q < MAX_PINS ==> spec_pin_mode(final(self).regs(), q) == spec_pin_mode(
                        old(self).regs(),
                        q,
                    )
            },
    {
        if pin >= MAX_PINS {
            return Err(Error::InvalidPin(pin));
        }
        if !self.initialized {
            return Err(Error::Io(CLOSED_HANDLE_ERRNO));
        }
        let gppud0 = self.registers.read(GPPUD);
        let steps = pull_sequence(pin, pud, gppud0);
        proof {
            let s = spec_pull_sequence(pin, pud, gppud0);
            assert forall|i: int|
                0 <= i < steps@.len() implies (#[trigger] steps@[i] matches PullStep::WriteReg {
                offset,
                value,
            } ==> offset < REG_WORDS) by {
                assert(s[1] is Settle && s[3] is Settle);
                assert(s[0]->WriteReg_offset == GPPUD);
                assert(s[2]->WriteReg_offset == (GPPUDCLK + pin as int / 32) as usize);
                assert(s[4]->WriteReg_offset == GPPUD);
                assert(s[5]->WriteReg_offset == (GPPUDCLK + pin as int / 32) as usize);
            }
        }
        apply_pull_steps(&mut self.registers, &steps);
        proof {
            crate::pull::lemma_pull_sequence_effect(old(self).regs(), pin, pud);
        }
        Ok(())
    }

    /// Configures a synchronous trigger for `pin`, or disarms it with
    /// `Disabled`. A pin never carries both trigger kinds: a live
    /// asynchronous worker on the pin is torn down first, and an abnormal
    /// termination found then surfaces here, before any arming.
    pub fn set_interrupt(&mut self, pin: u8, trigger: Trigger) -> (r: Result<(), Error>)
        requires
            old(self).wf(),
        ensures
            final(self).wf(),
            spec_same_admin(*old(self), *final(self)),
            final(self).regs() == old(self).regs(),
            pin >= MAX_PINS ==> r == Err::<(), Error>(Error::InvalidPin(pin)) && spec_same_state(
                *old(self),
                *final(self),
            ),
            pin < MAX_PINS && !old(self).spec_initialized() ==> r == Err::<(), Error>(
                Error::Io(CLOSED_HANDLE_ERRNO),
            ) && spec_same_state(*old(self), *final(self)),
            pin < MAX_PINS && old(self).spec_initialized() ==> {
                &&& final(self).workers() == old(self).workers().update(
                    pin as int,
                    None::<AsyncWorker>,
                )
                &&& if spec_worker_failed(old(self).workers(), pin) {
                    &&& r == Err::<(), Error>(Error::ThreadPanic)
                    &&& final(self).triggers() == old(self).triggers()
                    &&& final(self).cached() == old(self).cached()
                } else {
                    &&& r == Ok::<(), Error>(())
                    &&& final(self).triggers() == old(self).triggers().update(pin as int, trigger)
                    &&& final(self).cached() == old(self).cached().update(
                        pin as int,
                        None::<CachedEdge>,
                    )
                }
            },
    {
        if pin >= MAX_PINS {
            return Err(Error::InvalidPin(pin));
        }
        if !self.initialized {
            return Err(Error::Io(CLOSED_HANDLE_ERRNO));
        }
        let prior = self.workers[pin as usize].take();
        if let Some(mut w) = prior {
            if let Err(e) = w.stop() {
                return Err(e);
            }
        }
        self.events.set_interrupt(pin, trigger);
        Ok(())
    }

    /// Removes a previously configured synchronous trigger of `pin` and
    /// drops its cached edge; asynchronous workers are untouched.
    pub fn clear_interrupt(&mut self, pin: u8) -> (r: Result<(), Error>)
        requires
            old(self).wf(),
        ensures
            final(self).wf(),
            spec_same_admin(*old(self), *final(self)),
            final(self).regs() == old(self).regs(),
            final(self).workers() == old(self).workers(),
            pin >= MAX_PINS ==> r == Err::<(), Error>(Error::InvalidPin(pin)) && spec_same_state(
                *old(self),
                *final(self),
            ),
            pin < MAX_PINS && !old(self).spec_initialized() ==> r == Err::<(), Error>(
                Error::Io(CLOSED_HANDLE_ERRNO),
            ) && spec_same_state(*old(self), *final(self)),
            pin < MAX_PINS && old(self).spec_initialized() ==> {
                &&& r == Ok::<(), Error>(())
                &&& final(self).triggers() == old(self).triggers().update(
                    pin as int,
                    Trigger::Disabled,
                )
                &&& final(self).cached() == old(self).cached().update(
                    pin as int,
                    None::<CachedEdge>,
                )
            },
    {
        if pin >= MAX_PINS {
            return Err(Error::InvalidPin(pin));
        }
        if !self.initialized {
            return Err(Error::Io(CLOSED_HANDLE_ERRNO));
        }
        self.events.clear_interrupt(pin);
        Ok(())
    }

    /// Removes a previously configured asynchronous trigger of `pin`:
    /// stops the worker — the call returns only once the worker has
    /// observably stopped — and surfaces an abnormal termination of its
    /// thread. Without a worker on the pin this is a no-op.
    pub fn clear_async_interrupt(&mut self, pin: u8) -> (r: Result<(), Error>)
        requires
            old(self).wf(),
        ensures
            final(self).wf(),
            spec_same_admin(*old(self), *final(self)),
            final(self).regs() == old(self).regs(),
            final(self).triggers() == old(self).triggers(),
            final(self).cached() == old(self).cached(),
            pin >= MAX_PINS ==> r == Err::<(), Error>(Error::InvalidPin(pin)) && spec_same_state(
                *old(self),
                *final(self),
            ),
            pin < MAX_PINS && !old(self).spec_initialized() ==> r == Err::<(), Error>(
                Error::Io(CLOSED_HANDLE_ERRNO),
            ) && spec_same_state(*old(self), *final(self)),
            pin < MAX_PINS && old(self).spec_initialized() ==> {
                &&& final(self).workers() == old(self).workers().update(
                    pin as int,
                    None::<AsyncWorker>,
                )
                &&& r == if spec_worker_failed(old(self).workers(), pin) {
                    Err::<(), Error>(Error::ThreadPanic)
                } else {
                    Ok::<(), Error>(())
                }
            },
    {
        if pin >= MAX_PINS {
            return Err(Error::InvalidPin(pin));
        }
        if !self.initialized {
            return Err(Error::Io(CLOSED_HANDLE_ERRNO));
        }
        let prior = self.workers[pin as usize].take();
        if let Some(mut w) = prior {
            if let Err(e) = w.stop() {
                return Err(e);
            }
        }
        Ok(())
    }

    /// Configures an asynchronous trigger for `pin`: the synchronous
    /// registration and any prior worker of the pin are torn down first —
    /// a pin never carries both trigger kinds — and a fresh worker is
    /// armed with `trigger`. The worker's callback runs on its own thread,
    /// once per delivered edge.
    pub fn set_async_interrupt(&mut self, pin: u8, trigger: Trigger) -> (r: Result<(), Error>)
        requires
            old(self).wf(),
        ensures
            final(self).wf(),
            spec_same_admin(*old(self), *final(self)),
            final(self).regs() == old(self).regs(),
            pin >= MAX_PINS ==> r == Err::<(), Error>(Error::InvalidPin(pin)) && spec_same_state(
                *old(self),
                *final(self),
            ),
            pin < MAX_PINS && !old(self).spec_initialized() ==> r == Err::<(), Error>(
                Error::Io(CLOSED_HANDLE_ERRNO),
            ) && spec_same_state(*old(self), *final(self)),
            pin < MAX_PINS && old(self).spec_initialized() ==> {
                &&& final(self).triggers() == old(self).triggers().update(
                    pin as int,
                    Trigger::Disabled,
                )
                &&& final(self).cached() == old(self).cached().update(pin as int, None::<CachedEdge>)
                &&& forall|q: int|
                    0 <= q < MAX_PINS && q != pin ==> final(self).workers()[q] == old(self).workers()[q]
                &&& if spec_worker_failed(old(self).workers(), pin) {
                    &&& r == Err::<(), Error>(Error::ThreadPanic)
                    &&& final(self).workers()[pin as int] is None
                } else {
                    &&& r == Ok::<(), Error>(())
                    &&& (final(self).workers()[pin as int] matches Some(w) && {
                        &&& w.spec_trigger() == trigger
                        &&& w.spec_running()
                        &&& !w.spec_failed()
                        &&& w.spec_invocations() == 0
                    })
                }
            },
    {
        if pin >= MAX_PINS {
            return Err(Error::InvalidPin(pin));
        }
        if !self.initialized {
            return Err(Error::Io(CLOSED_HANDLE_ERRNO));
        }
        self.events.clear_interrupt(pin);
        let prior = self.workers[pin as usize].take();
        if let Some(mut w) = prior {
            if let Err(e) = w.stop() {
                return Err(e);
            }
        }
        self.workers[pin as usize] = Some(AsyncWorker::new(trigger));
        Ok(())
    }

    /// Blocks until a synchronous trigger fires on any of the requested
    /// pins, or the wait ends empty. `wake` carries what the readiness
    /// wait delivered — the drained edge records of the ready handles,
    /// empty on a timeout. With `reset`, edges cached for the requested
    /// pins before the call are discarded first; otherwise a pending
    /// cached edge is delivered at once, without consulting the wait. Of
    /// simultaneous edges exactly one pair is returned and the rest are
    /// cached for later calls. The exclusive borrow of the handle keeps a
    /// trigger change from interleaving with an in-flight poll. A
    /// requested pin without a registration simply contributes nothing: no
    /// record can arrive for it and no edge of it is ever cached.
    pub fn poll_interrupts(&mut self, pins: &Vec<u8>, reset: bool, wake: &Vec<EdgeEvent>) -> (r:
        Result<Option<(u8, Level)>, Error>)
        requires
            old(self).wf(),
            spec_valid_wake(wake@, old(self).triggers()),
        ensures
            final(self).wf(),
            spec_same_admin(*old(self), *final(self)),
            final(self).regs() == old(self).regs(),
            final(self).triggers() == old(self).triggers(),
            final(self).workers() == old(self).workers(),
            match spec_check_pins(pins@, 0) {
                Err(e) => r == Err::<Option<(u8, Level)>, Error>(e) && final(self).cached() == old(self).cached(),
                Ok(_) => if !old(self).spec_initialized() {
                    r == Err::<Option<(u8, Level)>, Error>(Error::Io(CLOSED_HANDLE_ERRNO)) && final(self).cached() == old(self).cached()
                } else {
                    ({
                        let c0 = if reset {
                            spec_discard(old(self).cached(), pins@)
                        } else {
                            old(self).cached()
                        };
                        let outcome = spec_poll(c0, pins@, wake@);
                        r == Ok::<Option<(u8, Level)>, Error>(outcome.0) && final(self).cached()
                            == outcome.1
                    })
                },
            },
    {
        let mut i: usize = 0;
        while i < pins.len()
            invariant
                i <= pins@.len(),
                *self == *old(self),
                old(self).wf(),
                spec_check_pins(pins@, 0) == spec_check_pins(pins@, i as int),
                forall|j: int| 0 <= j < i ==> pins@[j] < MAX_PINS,
            decreases pins@.len() - i,
        {
            if pins[i] >= MAX_PINS {
                return Err(Error::InvalidPin(pins[i]));
            }
            i += 1;
        }
        if !self.initialized {
            return Err(Error::Io(CLOSED_HANDLE_ERRNO));
        }
        let outcome = self.events.poll(pins, reset, wake);
        Ok(outcome)
    }

    /// Single-pin form of `poll_interrupts`: delivers the level of one
    /// edge on `pin`, or nothing when the wait ended empty.
    pub fn poll_interrupt(&mut self, pin: u8, reset: bool, wake: &Vec<EdgeEvent>) -> (r: Result<
        Option<Level>,
        Error,
    >)
        requires
            old(self).wf(),
            spec_valid_wake(wake@, old(self).triggers()),
        ensures
            final(self).wf(),
            spec_same_admin(*old(self), *final(self)),
            final(self).regs() == old(self).regs(),
            final(self).triggers() == old(self).triggers(),
            final(self).workers() == old(self).workers(),
            pin >= MAX_PINS ==> r == Err::<Option<Level>, Error>(Error::InvalidPin(pin)) && final(self).cached() == old(self).cached(),
            pin < MAX_PINS && !old(self).spec_initialized() ==> r == Err::<Option<Level>, Error>(
                Error::Io(CLOSED_HANDLE_ERRNO),
            ) && final(self).cached() == old(self).cached(),
            pin < MAX_PINS && old(self).spec_initialized() ==> ({
                let c0 = if reset {
                    spec_discard(old(self).cached(), seq![pin])
                } else {
                    old(self).cached()
                };
                let outcome = spec_poll(c0, seq![pin], wake@);
                r == Ok::<Option<Level>, Error>(
                    match outcome.0 {
                        Some(pair) => Some(pair.1),
                        None => None,
                    },
                ) && final(self).cached() == outcome.1
            }),
    {
        let pins = vec![pin];
        proof {
            assert(pins@ =~= seq![pin]);
            if pin < MAX_PINS {
                assert(spec_check_pins(pins@, 1) is Ok);
            }
        }
        match self.poll_interrupts(&pins, reset, wake) {
            Err(e) => Err(e),
            Ok(Some(pair)) => Ok(Some(pair.1)),
            Ok(None) => Ok(None),
        }
    }

    /// Feeds one round of `pin`'s asynchronous worker loop: hands the
    /// worker what its dual wait reported and returns whether the loop
    /// exits together with the levels the user callback is to be invoked
    /// with, in arrival order. Without a worker on the pin nothing happens
    /// and no invocation is asked for.
    pub fn async_interrupt_event(&mut self, pin: u8, event: WorkerEvent) -> (r: Result<
        (bool, Vec<Level>),
        Error,
    >)
        requires
            old(self).wf(),
        ensures
            final(self).wf(),
            spec_same_admin(*old(self), *final(self)),
            final(self).regs() == old(self).regs(),
            final(self).triggers() == old(self).triggers(),
            final(self).cached() == old(self).cached(),
            pin >= MAX_PINS ==> r == Err::<(bool, Vec<Level>), Error>(Error::InvalidPin(pin))
                && spec_same_state(*old(self), *final(self)),
            pin < MAX_PINS ==> match old(self).workers()[pin as int] {
                None => final(self).workers() == old(self).workers() && (r matches Ok(out)
                    && out.0 && out.1@ == Seq::<Level>::empty()),
                Some(w0) => {
                    &&& forall|q: int|
                        0 <= q < MAX_PINS && q != pin ==> final(self).workers()[q] == old(self).workers()[q]
                    &&& (final(self).workers()[pin as int] matches Some(w1) && (r matches Ok(out)
                        && spec_step_rel(w0, event, w1, out.0, out.1@)))
                },
            },
    {
        if pin >= MAX_PINS {
            return Err(Error::InvalidPin(pin));
        }
        let prior = self.workers[pin as usize].take();
        match prior {
            None => Ok((true, Vec::new())),
            Some(mut w) => {
                let out = w.step(event);
                self.workers[pin as usize] = Some(w);
                Ok(out)
            },
        }
    }

    /// Returns the pin accessor for `pin`, or nothing when the index lies
    /// outside the supported range — checked before any hardware access.
    pub fn get_pin(&self, pin: u8) -> (r: Option<crate::pin::Pin>)
        ensures
            pin < MAX_PINS ==> (r matches Some(p) && p.wf() && p.spec_number() == pin),
            pin >= MAX_PINS ==> r is None,
    {
        if pin < MAX_PINS {
            Some(crate::pin::Pin::new(pin))
        } else {
            None
        }
    }

    /// Reads `pin`'s 3-bit field of its function select register.
    pub(crate) fn pin_mode_read(&self, pin: u8) -> (m: Mode)
        requires
            self.wf(),
            self.spec_initialized(),
            pin < MAX_PINS,
        ensures
            m == spec_pin_mode(self.regs(), pin),
    {
        let w: usize = crate::regs::GPFSEL + (pin / 10) as usize;
        let cur = self.registers.read(w);
        let field = crate::regs::fsel_field(cur, (pin % 10) as u32);
        Mode::from_bits(field)
    }

    /// Rewrites `pin`'s 3-bit field of its function select register,
    /// leaving every other pin's field untouched.
    pub(crate) fn set_pin_mode(&mut self, pin: u8, mode: Mode)
        requires
            old(self).wf(),
            old(self).spec_initialized(),
            pin < MAX_PINS,
        ensures
            final(self).wf(),
            spec_same_admin(*old(self), *final(self)),
            final(self).triggers() == old(self).triggers(),
            final(self).cached() == old(self).cached(),
            final(self).workers() == old(self).workers(),
            final(self).regs() == spec_set_pin_mode(old(self).regs(), pin, mode),
    {
        let w: usize = crate::regs::GPFSEL + (pin / 10) as usize;
        let cur = self.registers.read(w);
        let updated = crate::regs::fsel_set(cur, (pin % 10) as u32, mode.bits());
        self.registers.write(w, updated);
    }

    /// Tests `pin`'s bit of its level register.
    pub(crate) fn read_pin_level(&self, pin: u8) -> (l: Level)
        requires
            self.wf(),
            self.spec_initialized(),
            pin < MAX_PINS,
        ensures
            l == spec_pin_level(self.regs(), pin),
    {
        let w: usize = crate::regs::GPLEV + (pin / 32) as usize;
        let cur = self.registers.read(w);
        crate::regs::level_bit(cur, (pin % 32) as u32)
    }

    /// Drives `pin`'s level through the set or clear strobe word for its
    /// register.
    pub(crate) fn write_pin_level(&mut self, pin: u8, level: Level)
        requires
            old(self).wf(),
            old(self).spec_initialized(),
            pin < MAX_PINS,
        ensures
            final(self).wf(),
            spec_same_admin(*old(self), *final(self)),
            final(self).triggers() == old(self).triggers(),
            final(self).cached() == old(self).cached(),
            final(self).workers() == old(self).workers(),
            final(self).regs() == spec_write_pin_level(old(self).regs(), pin, level),
    {
        let offset: usize = match level {
            Level::High => crate::regs::GPSET + (pin / 32) as usize,
            Level::Low => crate::regs::GPCLR + (pin / 32) as usize,
        };
        self.registers.write(offset, 1u32 << ((pin % 32) as u32));
    }

    /// Whether an asynchronous registration exists for `pin`.
    pub fn has_async_interrupt(&self, pin: u8) -> (r: bool)
        requires
            self.wf(),
            pin < MAX_PINS,
        ensures
            r == (self.workers()[pin as int] is Some),
    {
        self.workers[pin as usize].is_some()
    }

    /// The synchronous trigger currently registered for `pin`.
    pub fn interrupt_trigger(&self, pin: u8) -> (t: Trigger)
        requires
            self.wf(),
            pin < MAX_PINS,
        ensures
            t == self.triggers()[pin as int],
    {
        self.events.trigger(pin)
    }

    /// Law: trigger modes are mutually exclusive — a well-formed handle
    /// never carries a synchronous registration and an asynchronous worker
    /// on the same pin, whichever operations produced it.
    pub proof fn lemma_trigger_exclusivity(self, pin: u8)
        requires
            self.wf(),
            pin < MAX_PINS,
            !(self.triggers()[pin as int] is Disabled),
        ensures
            self.workers()[pin as int] is None,
    {
    }

    /// How often `pin`'s worker has invoked its callback, or nothing when
    /// no asynchronous registration exists for the pin.
    pub fn async_interrupt_invocations(&self, pin: u8) -> (r: Option<u64>)
        requires
            self.wf(),
            pin < MAX_PINS,
        ensures
            match self.workers()[pin as int] {
                Some(w) => r matches Some(n) && n as nat == w.spec_invocations(),
                None => r is None,
            },
    {
        match &self.workers[pin as usize] {
            Some(w) => Some(w.invocations()),
            None => None,
        }
    }
}

} // verus!
