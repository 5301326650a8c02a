//! The connection-driver task, as an explicit state machine, together
//! with the liveness reference count it races against and the per-cycle
//! window-resize rule of the adaptive flow-control integration.
//!
//! The driver owns the multiplexer's I/O pump. It races the pump against
//! the "liveness reached zero" event; when liveness wins it releases the
//! shutdown signal — the closure is the notification, no value is ever
//! sent — and then keeps pumping so that already-open streams finish and
//! outstanding close frames flush before the transport is released.

use vstd::prelude::*;
use crate::dispatch::{DispatchOutcome, DispatchState, Event, Phase, next_phase};

verus! {

/// Where the connection-driver task stands.
#[derive(Clone, Copy, Debug, PartialEq, Eq)]
pub enum DriverPhase {
    /// Racing the connection pump against the liveness-zero event.
    Racing,
    /// Liveness reached zero and the shutdown signal was released; the
    /// pump is being driven to completion so in-flight exchanges can
    /// finish.
    Draining,
    /// The pump has finished; the task is over.
    Finished,
}

/// What the race resolved to on one cycle.
#[derive(Clone, Copy, Debug, PartialEq, Eq)]
pub enum DriverEvent {
    /// The connection pump finished, successfully or with an error; an
    /// error was already logged where the pump was wrapped, and is never
    /// escalated.
    ConnDone,
    /// The last liveness reference was released: no more requests will
    /// ever arrive and no body is mid-flight.
    LivenessZero,
}

/// A side effect of one driver step.
#[derive(Clone, Copy, Debug, PartialEq, Eq)]
pub enum DriverAction {
    /// Release the shutdown signal: drop its sender, so the dispatch
    /// task observes the closure. Ending the task releases it the same
    /// way, so it is emitted on both paths out of the race.
    DropShutdownSignal,
}

/// Which events can resolve a cycle in the given phase.
pub open spec fn driver_accepts(phase: DriverPhase, e: DriverEvent) -> bool {
    match phase {
        DriverPhase::Racing => true,
        DriverPhase::Draining => e is ConnDone,
        DriverPhase::Finished => false,
    }
}

/// The transition function of the connection-driver task.
pub open spec fn driver_next(phase: DriverPhase, e: DriverEvent) -> DriverPhase {
    match (phase, e) {
        (DriverPhase::Racing, DriverEvent::ConnDone) => DriverPhase::Finished,
        (DriverPhase::Racing, DriverEvent::LivenessZero) => DriverPhase::Draining,
        (DriverPhase::Draining, DriverEvent::ConnDone) => DriverPhase::Finished,
        _ => phase,
    }
}

/// The side effects of one driver step. The shutdown signal is released
/// on every path that leaves the race: immediately when liveness reaches
/// zero, and through the task's own end when the pump finishes first.
pub open spec fn driver_actions(phase: DriverPhase, e: DriverEvent) -> Seq<DriverAction> {
    match (phase, e) {
        (DriverPhase::Racing, DriverEvent::ConnDone) => seq![DriverAction::DropShutdownSignal],
        (DriverPhase::Racing, DriverEvent::LivenessZero) => seq![
            DriverAction::DropShutdownSignal,
        ],
        _ => Seq::empty(),
    }
}

/// One cycle of the connection-driver task, exactly as [`driver_next`]
/// and [`driver_actions`] describe.
pub fn driver_step(phase: &DriverPhase, e: &DriverEvent) -> (r: (DriverPhase, Vec<DriverAction>))
    requires
        driver_accepts(*phase, *e),
    ensures
        r.0 == driver_next(*phase, *e),
        r.1@ == driver_actions(*phase, *e),
{
    match (*phase, *e) {
        (DriverPhase::Racing, DriverEvent::ConnDone) => {
            let mut actions: Vec<DriverAction> = Vec::new();
            actions.push(DriverAction::DropShutdownSignal);
            proof {
                assert(actions@ =~= driver_actions(*phase, *e));
            }
            (DriverPhase::Finished, actions)
        },
        (DriverPhase::Racing, DriverEvent::LivenessZero) => {
            let mut actions: Vec<DriverAction> = Vec::new();
            actions.push(DriverAction::DropShutdownSignal);
            proof {
                assert(actions@ =~= driver_actions(*phase, *e));
            }
            (DriverPhase::Draining, actions)
        },
        (DriverPhase::Draining, DriverEvent::ConnDone) => {
            let actions: Vec<DriverAction> = Vec::new();
            proof {
                assert(actions@ =~= driver_actions(*phase, *e));
            }
            (DriverPhase::Finished, actions)
        },
        _ => {
            proof {
                assert(false);
            }
            (*phase, Vec::new())
        },
    }
}

/// The window target to apply on one pump cycle: in adaptive mode,
/// whatever estimate is available is applied as both the advertised and
/// the target window size; with adaptive windowing off no estimate is
/// ever consulted and no resize is ever issued.
pub fn window_resize(adaptive: bool, estimate: Option<u32>) -> (r: Option<u32>)
    ensures
        adaptive ==> r == estimate,
        !adaptive ==> r is None,
{
    if adaptive {
        estimate
    } else {
        None
    }
}

/// The liveness law: the very driver cycle that observes the last
/// liveness reference gone releases the shutdown signal — no later than
/// one cycle after the release — and keeps draining the pump; and the
/// dispatch task ends with `Shutdown`, not an error, the next time it
/// finds the queue exhausted or observes the released signal.
pub proof fn lemma_liveness_zero_prompt_shutdown(s: DispatchState)
    ensures
        driver_next(DriverPhase::Racing, DriverEvent::LivenessZero) is Draining,
        driver_actions(DriverPhase::Racing, DriverEvent::LivenessZero).contains(
            DriverAction::DropShutdownSignal,
        ),
        s.phase is AwaitDriver ==> next_phase(s, Event::SignalClosed) == (Phase::Done {
            outcome: DispatchOutcome::Shutdown,
        }),
        s.phase is DrainQueue ==> next_phase(s, Event::QueueClosed) == (Phase::Done {
            outcome: DispatchOutcome::Shutdown,
        }),
{
    assert(driver_actions(DriverPhase::Racing, DriverEvent::LivenessZero)[0]
        == DriverAction::DropShutdownSignal);
}

/// The liveness reference count: one count for the request-producer
/// handle and one for every in-flight body-piping operation. Its only
/// observable event is "reached zero"; it carries no data.
#[derive(Clone, Copy, Debug, PartialEq, Eq)]
pub struct LivenessCount {
    pub refs: u64,
}

impl LivenessCount {
    /// A fresh count holding the one reference of the request-producer
    /// handle.
    pub fn new() -> (c: LivenessCount)
        ensures
            c.refs == 1,
    {
        LivenessCount { refs: 1 }
    }

    /// Clone a reference: a body-piping operation takes one for its
    /// duration, so the connection is not treated as abandoned while a
    /// body is still streaming.
    pub fn clone_ref(&mut self)
        requires
            old(self).refs < u64::MAX,
        ensures
            final(self).refs == old(self).refs + 1,
    {
        self.refs = self.refs + 1;
    }

    /// Release a reference.
    pub fn drop_ref(&mut self)
        requires
            old(self).refs > 0,
        ensures
            final(self).refs == old(self).refs - 1,
    {
        self.refs = self.refs - 1;
    }

    /// Whether the count has reached zero: no more requests will ever
    /// arrive and no body is mid-flight.
    pub fn is_zero(&self) -> (b: bool)
        ensures
            b == (self.refs == 0),
    {
        self.refs == 0
    }
}

} // verus!
