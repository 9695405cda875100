//! Asynchronous interrupt worker protocol.
//!
//! A live async registration owns a dedicated worker thread parked on a dual
//! wait over its private line-event handle and a stop signal. The thread
//! itself is outside the library; its decisions are here: a worker value
//! records the registration's state, and `step` says, for each thing the
//! dual wait can report, whether the loop exits and which levels the user
//! callback is invoked with. Teardown is synchronous — once `stop` has
//! returned, the worker is no longer running, and `step` on a stopped
//! worker changes nothing and invokes nothing.

use vstd::prelude::*;

use crate::Error;
use crate::types::EdgeKind;
use crate::types::Level;
use crate::types::Trigger;
use crate::types::level_of_edge;
use crate::types::spec_level_of_edge;

verus! {

/// What one round of the worker's dual wait reported.
pub enum WorkerEvent {
    /// The stop signal handle became ready: the owner asked the worker to
    /// exit.
    Stop,
    /// The line-event handle became ready; the records drained from it, in
    /// arrival order.
    Edges(Vec<EdgeKind>),
    /// The user callback unwound while the worker was invoking it.
    CallbackPanicked,
}

/// How one round of the worker loop relates the worker's state before and
/// after, the exit decision, and the callback invocations it asks for. A
/// stopped worker never changes and never invokes the callback again,
/// whatever the wait would still report; a running one exits on the stop
/// signal or a callback failure, and otherwise invokes the callback once
/// per drained edge, in arrival order.
pub open spec fn spec_step_rel(
    w0: AsyncWorker,
    event: WorkerEvent,
    w1: AsyncWorker,
    exit: bool,
    levels: Seq<Level>,
) -> bool {
    &&& w1.spec_trigger() == w0.spec_trigger()
    &&& if !w0.spec_running() {
        w1 == w0 && exit && levels == Seq::<Level>::empty()
    } else {
        match event {
            WorkerEvent::Stop => {
                &&& !w1.spec_running()
                &&& w1.spec_failed() == w0.spec_failed()
                &&& w1.spec_invocations() == w0.spec_invocations()
                &&& exit
                &&& levels == Seq::<Level>::empty()
            },
            WorkerEvent::Edges(ks) => {
                &&& w1.spec_running()
                &&& w1.spec_failed() == w0.spec_failed()
                &&& w1.spec_invocations() == if w0.spec_invocations() + ks@.len() <= u64::MAX {
                    w0.spec_invocations() + ks@.len()
                } else {
                    u64::MAX as nat
                }
                &&& !exit
                &&& levels == ks@.map_values(|k: EdgeKind| spec_level_of_edge(k))
            },
            WorkerEvent::CallbackPanicked => {
                &&& !w1.spec_running()
                &&& w1.spec_failed()
                &&& w1.spec_invocations() == w0.spec_invocations()
                &&& exit
                &&& levels == Seq::<Level>::empty()
            },
        }
    }
}

/// One pin's asynchronous interrupt registration.
pub struct AsyncWorker {
    trigger: Trigger,
    running: bool,
    failed: bool,
    invocations: u64,
}

impl AsyncWorker {
    /// The edge trigger the registration was armed with.
    pub closed spec fn spec_trigger(self) -> Trigger {
        self.trigger
    }

    /// Whether the worker loop is still running.
    pub closed spec fn spec_running(self) -> bool {
        self.running
    }

    /// Whether the worker terminated abnormally.
    pub closed spec fn spec_failed(self) -> bool {
        self.failed
    }

    /// How many times the user callback has been invoked.
    pub closed spec fn spec_invocations(self) -> nat {
        self.invocations as nat
    }

    /// A fresh registration: armed with `trigger`, worker running, no
    /// callback invoked yet.
    pub fn new(trigger: Trigger) -> (w: AsyncWorker)
        ensures
            w.spec_trigger() == trigger,
            w.spec_running(),
            !w.spec_failed(),
            w.spec_invocations() == 0,
    {
        AsyncWorker { trigger, running: true, failed: false, invocations: 0 }
    }

    /// Whether the worker loop is still running.
    pub fn is_running(&self) -> (r: bool)
        ensures
            r == self.spec_running(),
    {
        self.running
    }

    /// How many times the user callback has been invoked, saturating at the
    /// counter's width.
    pub fn invocations(&self) -> (r: u64)
        ensures
            r as nat == self.spec_invocations(),
    {
        self.invocations
    }

    /// One round of the worker loop. Returns whether the loop exits and the
    /// levels to invoke the user callback with, once per edge, in arrival
    /// order. A stopped worker never changes and never invokes the
    /// callback again, whatever the wait would still report.
    pub fn step(&mut self, event: WorkerEvent) -> (r: (bool, Vec<Level>))
        ensures
            spec_step_rel(*old(self), event, *final(self), r.0, r.1@),
    {
        if !self.running {
            return (true, Vec::new());
        }
        match event {
            WorkerEvent::Stop => {
                self.running = false;
                (true, Vec::new())
            },
            WorkerEvent::Edges(ks) => {
                let mut levels: Vec<Level> = Vec::new();
                let mut i: usize = 0;
                while i < ks.len()
                    invariant
                        i <= ks@.len(),
                        levels@.len() == i,
                        forall|j: int| 0 <= j < i ==> levels@[j] == spec_level_of_edge(ks@[j]),
                    decreases ks@.len() - i,
                {
                    let l = level_of_edge(ks[i]);
                    levels.push(l);
                    i += 1;
                }
                proof {
                    assert(levels@ =~= ks@.map_values(|k: EdgeKind| spec_level_of_edge(k)));
                }
                let n = ks.len() as u64;
                if self.invocations <= u64::MAX - n {
                    self.invocations = self.invocations + n;
                } else {
                    self.invocations = u64::MAX;
                }
                (false, levels)
            },
            WorkerEvent::CallbackPanicked => {
                self.running = false;
                self.failed = true;
                (true, Vec::new())
            },
        }
    }

    /// Synchronous teardown: signal the stop handle, join the thread, close
    /// both handles. When this returns the worker has observably stopped;
    /// an abnormal termination of the thread surfaces as `ThreadPanic`.
    pub fn stop(&mut self) -> (r: Result<(), Error>)
        ensures
            !final(self).spec_running(),
            final(self).spec_invocations() == old(self).spec_invocations(),
            final(self).spec_failed() == old(self).spec_failed(),
            final(self).spec_trigger() == old(self).spec_trigger(),
            r == if old(self).spec_failed() {
                Err::<(), Error>(Error::ThreadPanic)
            } else {
                Ok::<(), Error>(())
            },
    {
        self.running = false;
        if self.failed {
            Err(Error::ThreadPanic)
        } else {
            Ok(())
        }
    }
}

/// Law: teardown is quiescent. Once a worker has stopped — and `stop`
/// leaves every worker stopped — no later round of its loop changes it or
/// invokes the callback, so an invocation count sampled after `stop`
/// returned never increases.
pub proof fn lemma_stopped_worker_quiescent(
    w0: AsyncWorker,
    event: WorkerEvent,
    w1: AsyncWorker,
    exit: bool,
    levels: Seq<Level>,
)
    requires
        !w0.spec_running(),
        spec_step_rel(w0, event, w1, exit, levels),
    ensures
        w1 == w0,
        w1.spec_invocations() == w0.spec_invocations(),
        levels == Seq::<Level>::empty(),
{
}

} // verus!
