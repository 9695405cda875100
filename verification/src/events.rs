//! Synchronous interrupt event loop: per-pin trigger registrations and the
//! per-pin cache of edges that arrived but were not yet delivered to a poll
//! caller.
//!
//! The kernel side of a poll — blocking on the readiness multiplexer and
//! draining the ready line-event handles — reaches the loop as a sequence of
//! plain edge records, so the delivery logic is verified for every possible
//! outcome of the wait: a timeout (no records), one record, or several
//! records in one wake.

use vstd::prelude::*;
use vstd::assert_by_contradiction;

use crate::regs::MAX_PINS;
use crate::types::EdgeKind;
use crate::types::Level;
use crate::types::Trigger;
use crate::types::level_of_edge;
use crate::types::spec_level_of_edge;

verus! {

/// One edge retained for a pin but not yet handed to a poll caller; the
/// most recent edge wins if a new one arrives before retrieval.
#[derive(Debug, Clone, Copy, PartialEq, Eq, Structural)]
pub struct CachedEdge {
    /// Logic level the edge translated to.
    pub level: Level,
    /// Kernel sequence stamp of the edge record.
    pub stamp: u64,
}

/// One edge record drained from a ready line-event handle.
#[derive(Debug, Clone, Copy, PartialEq, Eq, Structural)]
pub struct EdgeEvent {
    /// Pin whose line-event handle reported the edge.
    pub pin: u8,
    /// Direction of the transition.
    pub kind: EdgeKind,
    /// Kernel sequence stamp of the record.
    pub stamp: u64,
}

/// The edge cache entry an event record is stored as.
pub open spec fn spec_edge_entry(e: EdgeEvent) -> CachedEdge {
    CachedEdge { level: spec_level_of_edge(e.kind), stamp: e.stamp }
}

/// The cache after the requested pins' pending edges are discarded.
pub open spec fn spec_discard(cached: Seq<Option<CachedEdge>>, pins: Seq<u8>) -> Seq<
    Option<CachedEdge>,
> {
    Seq::new(cached.len(), |i: int| if pins.contains(i as u8) { None } else { cached[i] })
}

/// Scans the requested pins from position `i` for the first one holding a
/// cached edge.
pub open spec fn spec_scan_cached(
    cached: Seq<Option<CachedEdge>>,
    pins: Seq<u8>,
    i: int,
) -> Option<(u8, CachedEdge)>
    decreases pins.len() - i,
{
    if i < 0 || i >= pins.len() {
        None
    } else if cached[pins[i] as int] is Some {
        Some((pins[i], cached[pins[i] as int]->Some_0))
    } else {
        spec_scan_cached(cached, pins, i + 1)
    }
}

/// Stores every remaining record of a wake in the cache, most recent edge
/// overwriting any stale one.
pub open spec fn spec_cache_tail(
    cached: Seq<Option<CachedEdge>>,
    wake: Seq<EdgeEvent>,
    i: int,
) -> Seq<Option<CachedEdge>>
    decreases wake.len() - i,
{
    if i < 0 || i >= wake.len() {
        cached
    } else {
        spec_cache_tail(cached.update(wake[i].pin as int, Some(spec_edge_entry(wake[i]))), wake, i + 1)
    }
}

/// Works through one wake's records from position `i`: the first record for
/// a requested pin becomes the delivered pair, every other record is cached.
pub open spec fn spec_scan_wake(
    cached: Seq<Option<CachedEdge>>,
    pins: Seq<u8>,
    wake: Seq<EdgeEvent>,
    i: int,
) -> (Option<(u8, Level)>, Seq<Option<CachedEdge>>)
    decreases wake.len() - i,
{
    if i < 0 || i >= wake.len() {
        (None, cached)
    } else {
        let e = wake[i];
        if pins.contains(e.pin) {
            (Some((e.pin, spec_level_of_edge(e.kind))), spec_cache_tail(cached, wake, i + 1))
        } else {
            spec_scan_wake(cached.update(e.pin as int, Some(spec_edge_entry(e))), pins, wake, i + 1)
        }
    }
}

/// Outcome of a poll over a cache state: a pending cached edge for one of
/// the requested pins is delivered at once and removed; otherwise the wake's
/// records decide, with the undelivered remainder cached.
pub open spec fn spec_poll(
    cached: Seq<Option<CachedEdge>>,
    pins: Seq<u8>,
    wake: Seq<EdgeEvent>,
) -> (Option<(u8, Level)>, Seq<Option<CachedEdge>>) {
    match spec_scan_cached(cached, pins, 0) {
        Some((p, e)) => (Some((p, e.level)), cached.update(p as int, None)),
        None => spec_scan_wake(cached, pins, wake, 0),
    }
}

/// Every pin index of a requested set lies in the supported range.
pub open spec fn spec_valid_pins(pins: Seq<u8>) -> bool {
    forall|i: int| 0 <= i < pins.len() ==> pins[i] < MAX_PINS
}

/// Every record of a wake names a supported pin whose trigger is armed: the
/// multiplexer only reports handles that a registration put there.
pub open spec fn spec_valid_wake(wake: Seq<EdgeEvent>, triggers: Seq<Trigger>) -> bool {
    forall|i: int|
        0 <= i < wake.len() ==> wake[i].pin < MAX_PINS && !(triggers[wake[i].pin as int]
            is Disabled)
}

/// Per-pin synchronous trigger registrations and the edge cache.
pub struct EventLoop {
    triggers: Vec<Trigger>,
    cached: Vec<Option<CachedEdge>>,
}

impl EventLoop {
    /// The trigger registered for each pin; `Disabled` is unarmed.
    pub closed spec fn triggers(self) -> Seq<Trigger> {
        self.triggers@
    }

    /// The pending cached edge of each pin.
    pub closed spec fn cached(self) -> Seq<Option<CachedEdge>> {
        self.cached@
    }

    /// Both tables cover every pin, and an edge is cached only while its
    /// pin's trigger is armed.
    pub open spec fn wf(self) -> bool {
        &&& self.triggers().len() == MAX_PINS
        &&& self.cached().len() == MAX_PINS
        &&& forall|p: int|
            0 <= p < MAX_PINS && self.triggers()[p] is Disabled ==> self.cached()[p] is None
    }

    /// A fresh loop with every pin unarmed and no cached edge.
    pub fn new() -> (r: EventLoop)
        ensures
            r.wf(),
            forall|p: int| 0 <= p < MAX_PINS ==> r.triggers()[p] is Disabled,
            forall|p: int| 0 <= p < MAX_PINS ==> r.cached()[p] is None,
    {
        EventLoop {
            triggers: vec![Trigger::Disabled; MAX_PINS as usize],
            cached: vec![None; MAX_PINS as usize],
        }
    }

    /// Registers `trigger` for `pin`, replacing any prior registration and
    /// dropping any cached edge; `Disabled` disarms the pin.
    pub fn set_interrupt(&mut self, pin: u8, trigger: Trigger)
        requires
            old(self).wf(),
            pin < MAX_PINS,
        ensures
            final(self).wf(),
            final(self).triggers() == old(self).triggers().update(pin as int, trigger),
            final(self).cached() == old(self).cached().update(pin as int, None::<CachedEdge>),
    {
        self.triggers[pin as usize] = trigger;
        self.cached[pin as usize] = None;
    }

    /// Removes any registration for `pin` and drops its cached edge.
    pub fn clear_interrupt(&mut self, pin: u8)
        requires
            old(self).wf(),
            pin < MAX_PINS,
        ensures
            final(self).wf(),
            final(self).triggers() == old(self).triggers().update(
                pin as int,
                Trigger::Disabled,
            ),
            final(self).cached() == old(self).cached().update(pin as int, None::<CachedEdge>),
    {
        self.set_interrupt(pin, Trigger::Disabled);
    }

    /// The trigger currently registered for `pin`.
    pub fn trigger(&self, pin: u8) -> (t: Trigger)
        requires
            self.wf(),
            pin < MAX_PINS,
        ensures
            t == self.triggers()[pin as int],
    {
        self.triggers[pin as usize]
    }

    /// Delivers at most one edge for the requested pins. With `reset`, edges
    /// cached before the call are discarded first. A pending cached edge for
    /// a requested pin is returned at once, without consulting the wake.
    /// Otherwise `wake` — the records the readiness wait delivered, empty on
    /// a timeout — decides: the first record for a requested pin is
    /// returned, and every other record is cached for a later call.
    pub fn poll(&mut self, pins: &Vec<u8>, reset: bool, wake: &Vec<EdgeEvent>) -> (r: Option<
        (u8, Level),
    >)
        requires
            old(self).wf(),
            spec_valid_pins(pins@),
            spec_valid_wake(wake@, old(self).triggers()),
        ensures
            final(self).wf(),
            final(self).triggers() == old(self).triggers(),
            ({
                let c0 = if reset {
                    spec_discard(old(self).cached(), pins@)
                } else {
                    old(self).cached()
                };
                let outcome = spec_poll(c0, pins@, wake@);
                r == outcome.0 && final(self).cached() == outcome.1
            }),
    {
        let ghost triggers0 = self.triggers@;
        if reset {
            let mut i: usize = 0;
            while i < pins.len()
                invariant
                    self.triggers@ == triggers0,
                    self.cached@.len() == MAX_PINS,
                    spec_valid_pins(pins@),
                    i <= pins@.len(),
                    forall|j: int|
                        0 <= j < MAX_PINS && !pins@.contains(j as u8) ==> self.cached@[j]
                            == old(self).cached()[j],
                    forall|k: int| 0 <= k < i ==> self.cached@[pins@[k] as int] is None,
                    forall|j: int|
                        0 <= j < MAX_PINS ==> (self.cached@[j] == old(self).cached()[j]
                            || self.cached@[j] is None),
                decreases pins@.len() - i,
            {
                let p = pins[i];
                self.cached[p as usize] = None;
                i += 1;
            }
            proof {
                assert forall|j: int| 0 <= j < MAX_PINS implies self.cached@[j] == spec_discard(
                    old(self).cached(),
                    pins@,
                )[j] by {
                    if pins@.contains(j as u8) {
                        let k = choose|k: int| 0 <= k < pins@.len() && pins@[k] == j as u8;
                        assert(self.cached@[pins@[k] as int] is None);
                    }
                }
                assert(self.cached@ =~= spec_discard(old(self).cached(), pins@));
            }
        }
        let ghost c0 = self.cached@;
        proof {
            assert(c0 == if reset {
                spec_discard(old(self).cached(), pins@)
            } else {
                old(self).cached()
            });
        }

        // Deliver a pending cached edge for the first requested pin that
        // holds one, consuming only that entry.
        let mut i: usize = 0;
        while i < pins.len()
            invariant
                self.triggers@ == triggers0,
                triggers0 == old(self).triggers(),
                self.cached@ == c0,
                c0 == if reset {
                    spec_discard(old(self).cached(), pins@)
                } else {
                    old(self).cached()
                },
                c0.len() == MAX_PINS,
                spec_valid_pins(pins@),
                i <= pins@.len(),
                spec_scan_cached(c0, pins@, 0) == spec_scan_cached(c0, pins@, i as int),
                old(self).wf(),
                forall|p: int| 0 <= p < MAX_PINS && triggers0[p] is Disabled ==> c0[p] is None,
            decreases pins@.len() - i,
        {
            let p = pins[i];
            let entry = self.cached[p as usize];
            if let Some(e) = entry {
                self.cached[p as usize] = None;
                proof {
                    assert(spec_scan_cached(c0, pins@, i as int) == Some((p, e)));
                }
                return Some((p, e.level));
            }
            i += 1;
        }
        assert(spec_scan_cached(c0, pins@, 0) is None);

        // No pending edge: the wake's records decide.
        let mut res: Option<(u8, Level)> = None;
        let mut k: usize = 0;
        while k < wake.len()
            invariant
                self.triggers@ == triggers0,
                triggers0 == old(self).triggers(),
                c0 == if reset {
                    spec_discard(old(self).cached(), pins@)
                } else {
                    old(self).cached()
                },
                spec_scan_cached(c0, pins@, 0) is None,
                self.cached@.len() == MAX_PINS,
                spec_valid_pins(pins@),
                spec_valid_wake(wake@, triggers0),
                k <= wake@.len(),
                forall|p: int|
                    0 <= p < MAX_PINS && triggers0[p] is Disabled ==> self.cached@[p] is None,
                match res {
                    None => spec_scan_wake(c0, pins@, wake@, 0) == spec_scan_wake(
                        self.cached@,
                        pins@,
                        wake@,
                        k as int,
                    ),
                    Some(rv) => spec_scan_wake(c0, pins@, wake@, 0) == (
                        Some(rv),
                        spec_cache_tail(self.cached@, wake@, k as int),
                    ),
                },
            decreases wake@.len() - k,
        {
            let e = wake[k];
            let lvl = level_of_edge(e.kind);
            let mut claimed = false;
            if res.is_none() {
                if contains_pin(pins, e.pin) {
                    res = Some((e.pin, lvl));
                    claimed = true;
                }
            }
            if !claimed {
                self.cached[e.pin as usize] = Some(CachedEdge { level: lvl, stamp: e.stamp });
            }
            k += 1;
        }
        proof {
            match res {
                None => {
                    assert(spec_scan_wake(c0, pins@, wake@, 0) == (
                        None::<(u8, Level)>,
                        self.cached@,
                    ));
                },
                Some(rv) => {
                    assert(spec_scan_wake(c0, pins@, wake@, 0) == (Some(rv), self.cached@));
                },
            }
        }
        res
    }
}

/// After a discard, no requested pin holds a cached edge any more.
proof fn lemma_scan_cached_after_discard(cached: Seq<Option<CachedEdge>>, pins: Seq<u8>, i: int)
    requires
        cached.len() == MAX_PINS,
        spec_valid_pins(pins),
    ensures
        spec_scan_cached(spec_discard(cached, pins), pins, i) is None,
    decreases pins.len() - i,
{
    if 0 <= i < pins.len() {
        assert(pins.contains(pins[i]));
        lemma_scan_cached_after_discard(cached, pins, i + 1);
    }
}

/// Which pair a wake delivers depends on the wake's records and the
/// requested pins alone, never on what was cached before.
proof fn lemma_scan_wake_ignores_cache(
    c1: Seq<Option<CachedEdge>>,
    c2: Seq<Option<CachedEdge>>,
    pins: Seq<u8>,
    wake: Seq<EdgeEvent>,
    i: int,
)
    ensures
        spec_scan_wake(c1, pins, wake, i).0 == spec_scan_wake(c2, pins, wake, i).0,
    decreases wake.len() - i,
{
    if 0 <= i < wake.len() && !pins.contains(wake[i].pin) {
        let e = wake[i];
        lemma_scan_wake_ignores_cache(
            c1.update(e.pin as int, Some(spec_edge_entry(e))),
            c2.update(e.pin as int, Some(spec_edge_entry(e))),
            pins,
            wake,
            i + 1,
        );
    }
}

/// Law: a poll that resets first delivers the same pair whatever edges had
/// been recorded for the requested pins before the call — only the wake
/// decides. Two polls over caches that differ arbitrarily agree once both
/// discard the requested pins' pending edges.
pub proof fn lemma_poll_reset_ignores_prior_edges(
    c1: Seq<Option<CachedEdge>>,
    c2: Seq<Option<CachedEdge>>,
    pins: Seq<u8>,
    wake: Seq<EdgeEvent>,
)
    requires
        c1.len() == MAX_PINS,
        c2.len() == MAX_PINS,
        spec_valid_pins(pins),
    ensures
        spec_poll(spec_discard(c1, pins), pins, wake).0 == spec_poll(
            spec_discard(c2, pins),
            pins,
            wake,
        ).0,
{
    lemma_scan_cached_after_discard(c1, pins, 0);
    lemma_scan_cached_after_discard(c2, pins, 0);
    lemma_scan_wake_ignores_cache(spec_discard(c1, pins), spec_discard(c2, pins), pins, wake, 0);
}

/// Law: a poll without reset on a pin holding a cached edge delivers that
/// edge at once — the outcome is the same for every possible wake, so the
/// call never has to block — and consumes exactly that cache entry.
pub proof fn lemma_poll_cached_immediate(
    cached: Seq<Option<CachedEdge>>,
    pin: u8,
    e: CachedEdge,
    wake: Seq<EdgeEvent>,
)
    requires
        cached.len() == MAX_PINS,
        pin < MAX_PINS,
        cached[pin as int] == Some(e),
    ensures
        spec_poll(cached, seq![pin], wake) == (
            Some((pin, e.level)),
            cached.update(pin as int, None::<CachedEdge>),
        ),
{
    assert(spec_scan_cached(cached, seq![pin], 0) == Some((pin, e)));
}

/// A delivered pair always names one of the requested pins.
proof fn lemma_scan_wake_delivers_requested(
    cached: Seq<Option<CachedEdge>>,
    pins: Seq<u8>,
    wake: Seq<EdgeEvent>,
    i: int,
)
    ensures
        spec_scan_wake(cached, pins, wake, i).0 matches Some(pair) ==> pins.contains(pair.0),
    decreases wake.len() - i,
{
    if 0 <= i < wake.len() && !pins.contains(wake[i].pin) {
        let e = wake[i];
        lemma_scan_wake_delivers_requested(
            cached.update(e.pin as int, Some(spec_edge_entry(e))),
            pins,
            wake,
            i + 1,
        );
    }
}

/// Law: a poll that requests a single pin only ever delivers that pin.
pub proof fn lemma_poll_single_pin(
    cached: Seq<Option<CachedEdge>>,
    pin: u8,
    wake: Seq<EdgeEvent>,
)
    requires
        cached.len() == MAX_PINS,
        pin < MAX_PINS,
    ensures
        spec_poll(cached, seq![pin], wake).0 matches Some(pair) ==> pair.0 == pin,
{
    let pins = seq![pin];
    match spec_scan_cached(cached, pins, 0) {
        Some((p, e)) => {
            assert(spec_scan_cached(cached, pins, 1) is None);
            assert(p == pin);
        },
        None => {
            lemma_scan_wake_delivers_requested(cached, pins, wake, 0);
            assert forall|q: u8| pins.contains(q) implies q == pin by {
                let j = choose|j: int| 0 <= j < pins.len() && pins[j] == q;
            }
        },
    }
}

/// Law: when one wake reports edges on two requested pins at once, exactly
/// the first pin's pair is delivered and the second pin's edge is cached;
/// an immediate follow-up poll without reset delivers the second pin's
/// cached edge for every possible wake, so it never has to block.
pub proof fn lemma_poll_simultaneous_edges(
    cached: Seq<Option<CachedEdge>>,
    e1: EdgeEvent,
    e2: EdgeEvent,
    wake2: Seq<EdgeEvent>,
)
    requires
        cached.len() == MAX_PINS,
        e1.pin < MAX_PINS,
        e2.pin < MAX_PINS,
        e1.pin != e2.pin,
        cached[e1.pin as int] is None,
        cached[e2.pin as int] is None,
    ensures
        ({
            let pins = seq![e1.pin, e2.pin];
            let first = spec_poll(cached, pins, seq![e1, e2]);
            let second = spec_poll(first.1, pins, wake2);
            &&& first.0 == Some((e1.pin, spec_level_of_edge(e1.kind)))
            &&& first.1[e2.pin as int] == Some(spec_edge_entry(e2))
            &&& second.0 == Some((e2.pin, spec_level_of_edge(e2.kind)))
            &&& second.1[e2.pin as int] is None
        }),
{
    let pins = seq![e1.pin, e2.pin];
    let wake = seq![e1, e2];
    assert(pins[0] == e1.pin && pins[1] == e2.pin && wake[0] == e1 && wake[1] == e2);
    assert(pins.contains(e1.pin) && pins.contains(e2.pin));
    assert(spec_scan_cached(cached, pins, 2) is None);
    assert(spec_scan_cached(cached, pins, 1) is None);
    assert(spec_scan_cached(cached, pins, 0) is None);
    assert(spec_scan_wake(cached, pins, wake, 0) == (
        Some((e1.pin, spec_level_of_edge(e1.kind))),
        spec_cache_tail(cached, wake, 1),
    ));
    let c1 = spec_cache_tail(cached, wake, 1);
    let cu = cached.update(e2.pin as int, Some(spec_edge_entry(e2)));
    assert(spec_cache_tail(cu, wake, 2) == cu);
    assert(c1 == spec_cache_tail(cu, wake, 2));
    assert(c1 == cached.update(e2.pin as int, Some(spec_edge_entry(e2))));
    assert(spec_scan_cached(c1, pins, 0) == spec_scan_cached(c1, pins, 1));
    assert(spec_scan_cached(c1, pins, 1) == Some((e2.pin, spec_edge_entry(e2))));
}

/// Whether the requested pin set contains `p`.
fn contains_pin(pins: &Vec<u8>, p: u8) -> (r: bool)
    ensures
        r == pins@.contains(p),
{
    let mut i: usize = 0;
    while i < pins.len()
        invariant
            i <= pins@.len(),
            forall|j: int| 0 <= j < i ==> pins@[j] != p,
        decreases pins@.len() - i,
    {
        if pins[i] == p {
            return true;
        }
        i += 1;
    }
    proof {
        assert_by_contradiction!(!pins@.contains(p), {
            let j = choose|j: int| 0 <= j < pins@.len() && pins@[j] == p;
        });
    }
    false
}

} // verus!
