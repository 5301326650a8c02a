//! The dispatch loop, as an explicit state machine.
//!
//! Each scheduling turn of the dispatch task polls exactly one thing —
//! multiplexer readiness, the inbound queue, a just-built body pipe, or
//! the shutdown signal — and hands the outcome to [`step`] as an
//! [`Event`]. The machine answers with the next [`Phase`] and the
//! side-effecting [`Action`]s to perform, in order. The surrounding task
//! owns the multiplexer handle, the queue and the callbacks; it performs
//! the actions and suspends whenever the poll it made came back pending.

use vstd::prelude::*;

verus! {

/// The protocol's "graceful, no error" closure code: the peer ended the
/// connection intentionally and without error.
pub const NO_ERROR_CODE: u32 = 0;

/// The kind of flow-control sampler handle attached to every delivered
/// response. The disabled variant satisfies the same surface as a no-op,
/// so delivery code never branches on the adaptive-window toggle.
#[derive(Clone, Copy, Debug, PartialEq, Eq)]
pub enum FlowControl {
    /// No-op placeholder: consumption feeds no estimator.
    Disabled,
    /// Samples stream-level consumption for the window estimator.
    Adaptive,
}

/// Terminal result of the dispatch task.
#[derive(Clone, Copy, Debug, PartialEq, Eq)]
pub enum DispatchOutcome {
    /// Clean end of life: graceful closure, queue fully released, or the
    /// connection driver ended. Not an error.
    Shutdown,
    /// The multiplexer closed for some other reason; the code is the
    /// protocol-level reason, when the closure carried one.
    ConnectionError { code: Option<u32> },
}

/// What the dispatch loop reads of a dequeued request: the callback's
/// cancellation flag, the body's declared length and end-of-stream
/// report, and the two header facts the stamping rule depends on.
#[derive(Clone, Copy, Debug, PartialEq, Eq)]
pub struct QueueItem {
    /// The caller has already cancelled the completion callback.
    pub cancelled: bool,
    /// The body's exact known length, if it declares one.
    pub body_len: Option<u64>,
    /// A content-length header is already present on the request head.
    pub has_content_length: bool,
    /// The request's method is specified to carry a body regardless of
    /// declared length (distinguishing an explicitly empty body from no
    /// body at all).
    pub method_has_payload: bool,
    /// The body already reports end-of-stream.
    pub body_eos: bool,
}

/// Where the dispatch loop stands; the phase tells the surrounding task
/// what to poll or perform next.
#[derive(Clone, Copy, Debug, PartialEq, Eq)]
pub enum Phase {
    /// Poll the multiplexer for permission to submit a new request.
    CheckReady,
    /// A readiness slot is held; poll the inbound queue.
    DrainQueue,
    /// Headers were prepared and submission was requested; awaiting the
    /// submission result. `eos` records whether the body was already
    /// exhausted at submission time.
    Submitting { eos: bool },
    /// A body pipe was built and polled once, synchronously; awaiting
    /// that first poll's outcome.
    PipePolling,
    /// The queue had nothing ready; poll the shutdown signal.
    AwaitDriver,
    /// The loop has ended with its terminal outcome.
    Done { outcome: DispatchOutcome },
}

/// The outcome of the one poll the surrounding task made for the current
/// phase.
#[derive(Clone, Copy, Debug, PartialEq, Eq)]
pub enum Event {
    /// Readiness poll: a submission slot is available.
    ReadyOk,
    /// Readiness poll: not ready; the task suspends until woken.
    ReadyPending,
    /// Readiness poll: the multiplexer is permanently closed, with the
    /// protocol-level reason code when the closure carried one.
    ReadyClosed { code: Option<u32> },
    /// Queue poll: an item was dequeued.
    Dequeued { item: QueueItem },
    /// Queue poll: the producer side is fully released and the queue is
    /// exhausted.
    QueueClosed,
    /// Queue poll: nothing ready right now.
    QueuePending,
    /// Submission accepted by the multiplexer.
    SubmitOk,
    /// Submission failed.
    SubmitFailed,
    /// The body pipe completed on its first synchronous poll.
    PipeDone,
    /// The body pipe did not complete on its first synchronous poll.
    PipePending,
    /// Shutdown-signal poll: the sender was dropped — the driver ended.
    SignalClosed,
    /// Shutdown-signal poll: still open; the task suspends until woken
    /// by the queue or the signal.
    SignalPending,
}

/// A side effect the surrounding task must perform, in order, before the
/// next poll.
#[derive(Clone, Copy, Debug, PartialEq, Eq)]
pub enum Action {
    /// Drop the dequeued item without submitting it; its callback was
    /// already cancelled.
    DiscardItem,
    /// Strip connection-lifecycle header fields from the request head;
    /// this protocol generation has no per-hop semantics.
    StripConnectionHeaders,
    /// Stamp a content-length header with the given value.
    SetContentLength { len: u64 },
    /// Submit the prepared header data to the multiplexer, with the
    /// end-of-stream flag.
    Submit { eos: bool },
    /// Deliver the submission error to this request's callback only,
    /// with no partial response; the loop itself continues.
    DeliverSubmitError,
    /// Build the body-piping operation and poll it once, synchronously,
    /// before deciding whether to hand it to the scheduler.
    FirstPollPipe,
    /// Hand the body pipe to the scheduler as an independent task; it
    /// holds a cloned liveness reference for its duration.
    SpawnPipe,
    /// Spawn the response-delivery operation (always spawned, never
    /// inlined); on success it attaches a clone of the given
    /// flow-control handle to the response body.
    SpawnResponseDelivery { flow: FlowControl },
}

/// The dispatch machine: the phase, and the flow-control handle kind
/// fixed at setup and attached to every delivered response.
#[derive(Clone, Copy, Debug, PartialEq, Eq)]
pub struct DispatchState {
    pub flow: FlowControl,
    pub phase: Phase,
}

/// One machine step: the next phase and the side effects to perform.
#[derive(Debug, PartialEq, Eq)]
pub struct StepResult {
    pub phase: Phase,
    pub actions: Vec<Action>,
}

/// How a permanent closure of the multiplexer surfaces: the graceful
/// reason is a clean shutdown, anything else — a missing code included —
/// is a propagated error.
pub open spec fn closure_outcome(code: Option<u32>) -> DispatchOutcome {
    if code == Some(NO_ERROR_CODE) {
        DispatchOutcome::Shutdown
    } else {
        DispatchOutcome::ConnectionError { code }
    }
}

/// The content-length value to stamp on a dequeued request, if any:
/// the body declares an exact length, no header is present yet, and the
/// length is non-zero or the method carries a body regardless.
pub open spec fn content_length_to_set(item: QueueItem) -> Option<u64> {
    match item.body_len {
        Some(len) => if !item.has_content_length && (len != 0 || item.method_has_payload) {
            Some(len)
        } else {
            None
        },
        None => None,
    }
}

/// The header-preparation and submission actions for a live (not
/// cancelled) dequeued item.
pub open spec fn submit_actions(item: QueueItem) -> Seq<Action> {
    match content_length_to_set(item) {
        Some(len) => seq![
            Action::StripConnectionHeaders,
            Action::SetContentLength { len },
            Action::Submit { eos: item.body_eos },
        ],
        None => seq![
            Action::StripConnectionHeaders,
            Action::Submit { eos: item.body_eos },
        ],
    }
}

/// Which events can answer a poll made in the given phase.
pub open spec fn phase_accepts(phase: Phase, e: Event) -> bool {
    match phase {
        Phase::CheckReady => e is ReadyOk || e is ReadyPending || e is ReadyClosed,
        Phase::DrainQueue => e is Dequeued || e is QueueClosed || e is QueuePending,
        Phase::Submitting { .. } => e is SubmitOk || e is SubmitFailed,
        Phase::PipePolling => e is PipeDone || e is PipePending,
        Phase::AwaitDriver => e is SignalClosed || e is SignalPending,
        Phase::Done { .. } => false,
    }
}

/// The transition function of the dispatch loop.
pub open spec fn next_phase(s: DispatchState, e: Event) -> Phase {
    match (s.phase, e) {
        (Phase::CheckReady, Event::ReadyOk) => Phase::DrainQueue,
        (Phase::CheckReady, Event::ReadyPending) => Phase::CheckReady,
        (Phase::CheckReady, Event::ReadyClosed { code }) => Phase::Done {
            outcome: closure_outcome(code),
        },
        (Phase::DrainQueue, Event::Dequeued { item }) => if item.cancelled {
            Phase::CheckReady
        } else {
            Phase::Submitting { eos: item.body_eos }
        },
        (Phase::DrainQueue, Event::QueueClosed) => Phase::Done {
            outcome: DispatchOutcome::Shutdown,
        },
        (Phase::DrainQueue, Event::QueuePending) => Phase::AwaitDriver,
        (Phase::Submitting { .. }, Event::SubmitFailed) => Phase::CheckReady,
        (Phase::Submitting { eos }, Event::SubmitOk) => if eos {
            Phase::CheckReady
        } else {
            Phase::PipePolling
        },
        (Phase::PipePolling, Event::PipeDone) => Phase::CheckReady,
        (Phase::PipePolling, Event::PipePending) => Phase::CheckReady,
        (Phase::AwaitDriver, Event::SignalClosed) => Phase::Done {
            outcome: DispatchOutcome::Shutdown,
        },
        (Phase::AwaitDriver, Event::SignalPending) => Phase::CheckReady,
        _ => s.phase,
    }
}

/// The side effects of one step, in the order they are performed.
pub open spec fn step_actions(s: DispatchState, e: Event) -> Seq<Action> {
    match (s.phase, e) {
        (Phase::DrainQueue, Event::Dequeued { item }) => if item.cancelled {
            seq![Action::DiscardItem]
        } else {
            submit_actions(item)
        },
        (Phase::Submitting { .. }, Event::SubmitFailed) => seq![Action::DeliverSubmitError],
        (Phase::Submitting { eos }, Event::SubmitOk) => if eos {
            seq![Action::SpawnResponseDelivery { flow: s.flow }]
        } else {
            seq![Action::FirstPollPipe]
        },
        (Phase::PipePolling, Event::PipeDone) => seq![
            Action::SpawnResponseDelivery { flow: s.flow },
        ],
        (Phase::PipePolling, Event::PipePending) => seq![
            Action::SpawnPipe,
            Action::SpawnResponseDelivery { flow: s.flow },
        ],
        _ => Seq::empty(),
    }
}

/// The content-length value to stamp, if any; see
/// [`content_length_to_set`].
pub fn content_length_directive(item: &QueueItem) -> (r: Option<u64>)
    ensures
        r == content_length_to_set(*item),
{
    match item.body_len {
        Some(len) => if !item.has_content_length && (len != 0 || item.method_has_payload) {
            Some(len)
        } else {
            None
        },
        None => None,
    }
}

/// One turn of the dispatch loop: from the current state and the outcome
/// of the poll made for it, the next phase and the side effects to
/// perform, exactly as [`next_phase`] and [`step_actions`] describe.
pub fn step(s: &DispatchState, e: &Event) -> (r: StepResult)
    requires
        phase_accepts(s.phase, *e),
    ensures
        r.phase == next_phase(*s, *e),
        r.actions@ == step_actions(*s, *e),
{
    match (s.phase, *e) {
        (Phase::CheckReady, Event::ReadyOk) => StepResult {
            phase: Phase::DrainQueue,
            actions: Vec::new(),
        },
        (Phase::CheckReady, Event::ReadyPending) => StepResult {
            phase: Phase::CheckReady,
            actions: Vec::new(),
        },
        (Phase::CheckReady, Event::ReadyClosed { code }) => StepResult {
            phase: Phase::Done { outcome: classify_closure(code) },
            actions: Vec::new(),
        },
        (Phase::DrainQueue, Event::Dequeued { item }) => if item.cancelled {
            let mut actions: Vec<Action> = Vec::new();
            actions.push(Action::DiscardItem);
            proof {
                assert(actions@ =~= step_actions(*s, *e));
            }
            StepResult { phase: Phase::CheckReady, actions }
        } else {
            let mut actions: Vec<Action> = Vec::new();
            actions.push(Action::StripConnectionHeaders);
            match content_length_directive(&item) {
                Some(len) => actions.push(Action::SetContentLength { len }),
                None => (),
            }
            actions.push(Action::Submit { eos: item.body_eos });
            proof {
                assert(actions@ =~= submit_actions(item));
            }
            StepResult { phase: Phase::Submitting { eos: item.body_eos }, actions }
        },
        (Phase::DrainQueue, Event::QueueClosed) => StepResult {
            phase: Phase::Done { outcome: DispatchOutcome::Shutdown },
            actions: Vec::new(),
        },
        (Phase::DrainQueue, Event::QueuePending) => StepResult {
            phase: Phase::AwaitDriver,
            actions: Vec::new(),
        },
        (Phase::Submitting { .. }, Event::SubmitFailed) => {
            let mut actions: Vec<Action> = Vec::new();
            actions.push(Action::DeliverSubmitError);
            proof {
                assert(actions@ =~= step_actions(*s, *e));
            }
            StepResult { phase: Phase::CheckReady, actions }
        },
        (Phase::Submitting { eos }, Event::SubmitOk) => if eos {
            let mut actions: Vec<Action> = Vec::new();
            actions.push(Action::SpawnResponseDelivery { flow: s.flow });
            proof {
                assert(actions@ =~= step_actions(*s, *e));
            }
            StepResult { phase: Phase::CheckReady, actions }
        } else {
            let mut actions: Vec<Action> = Vec::new();
            actions.push(Action::FirstPollPipe);
            proof {
                assert(actions@ =~= step_actions(*s, *e));
            }
            StepResult { phase: Phase::PipePolling, actions }
        },
        (Phase::PipePolling, Event::PipeDone) => {
            let mut actions: Vec<Action> = Vec::new();
            actions.push(Action::SpawnResponseDelivery { flow: s.flow });
            proof {
                assert(actions@ =~= step_actions(*s, *e));
            }
            StepResult { phase: Phase::CheckReady, actions }
        },
        (Phase::PipePolling, Event::PipePending) => {
            let mut actions: Vec<Action> = Vec::new();
            actions.push(Action::SpawnPipe);
            actions.push(Action::SpawnResponseDelivery { flow: s.flow });
            proof {
                assert(actions@ =~= step_actions(*s, *e));
            }
            StepResult { phase: Phase::CheckReady, actions }
        },
        (Phase::AwaitDriver, Event::SignalClosed) => StepResult {
            phase: Phase::Done { outcome: DispatchOutcome::Shutdown },
            actions: Vec::new(),
        },
        (Phase::AwaitDriver, Event::SignalPending) => StepResult {
            phase: Phase::CheckReady,
            actions: Vec::new(),
        },
        _ => {
            proof {
                assert(false);
            }
            StepResult { phase: s.phase, actions: Vec::new() }
        },
    }
}

/// Whether a submission reaches the multiplexer in this step.
pub open spec fn has_submit(actions: Seq<Action>) -> bool {
    exists|i: int| 0 <= i < actions.len() && actions[i] is Submit
}

/// Whether a body pipe is handed to the scheduler in this step.
pub open spec fn has_spawn_pipe(actions: Seq<Action>) -> bool {
    exists|i: int| 0 <= i < actions.len() && actions[i] is SpawnPipe
}

/// Every response delivery spawned in this step carries the given
/// flow-control handle.
pub open spec fn delivery_flow_is(actions: Seq<Action>, flow: FlowControl) -> bool {
    forall|i: int|
        0 <= i < actions.len() ==> ((#[trigger] actions[i]) matches Action::SpawnResponseDelivery {
            flow: f,
        } ==> f == flow)
}

/// The multiplexer never receives a submission call other than for a
/// dequeued request whose callback was not yet cancelled: no phase and
/// no other event ever emits one.
pub proof fn lemma_submit_only_for_live_item(s: DispatchState, e: Event)
    requires
        has_submit(step_actions(s, e)),
    ensures
        s.phase is DrainQueue,
        e matches Event::Dequeued { item } && !item.cancelled,
{
}

/// A dequeued request whose callback is already cancelled is discarded
/// without submitting: the step's only effect is the discard, and the
/// loop re-enters the readiness check directly, so the held readiness
/// slot is not consumed.
pub proof fn lemma_cancelled_item_discarded(s: DispatchState, item: QueueItem)
    requires
        s.phase is DrainQueue,
        item.cancelled,
    ensures
        step_actions(s, Event::Dequeued { item }) =~= seq![Action::DiscardItem],
        !has_submit(step_actions(s, Event::Dequeued { item })),
        next_phase(s, Event::Dequeued { item }) is CheckReady,
{
}

/// Every delivered response carries the flow-control handle fixed at
/// setup; in particular, when adaptive windowing is off every delivery
/// carries the disabled handle, whatever happens.
pub proof fn lemma_delivery_carries_configured_flow(s: DispatchState, e: Event)
    ensures
        delivery_flow_is(step_actions(s, e), s.flow),
{
}

/// The content-length stamping rule: with a declared exact length and no
/// existing header, the header is set exactly when the length is
/// non-zero or the method carries a body regardless; an existing header,
/// or a body with no declared length, is never overwritten or stamped.
pub proof fn lemma_content_length_stamping(item: QueueItem)
    ensures
        item.body_len matches Some(len) ==> (!item.has_content_length
            ==> content_length_to_set(item) == (if len > 0 || item.method_has_payload {
            Some(len)
        } else {
            None::<u64>
        })),
        item.has_content_length ==> content_length_to_set(item) is None,
        item.body_len is None ==> content_length_to_set(item) is None,
{
}

/// A closure with the graceful reason ends the loop with `Shutdown`, a
/// success; a closure with any other reason — a missing code included —
/// ends it with a propagated error carrying that code.
pub proof fn lemma_closure_reasons(s: DispatchState, code: Option<u32>)
    requires
        s.phase is CheckReady,
    ensures
        code == Some(NO_ERROR_CODE) ==> next_phase(s, Event::ReadyClosed { code }) == (Phase::Done {
            outcome: DispatchOutcome::Shutdown,
        }),
        code != Some(NO_ERROR_CODE) ==> next_phase(s, Event::ReadyClosed { code }) == (Phase::Done {
            outcome: DispatchOutcome::ConnectionError { code },
        }),
{
}

/// A request submitted with its body already at end-of-stream never
/// builds a body pipe at all: the step after a successful submission
/// only spawns the response delivery.
pub proof fn lemma_exhausted_body_never_piped(s: DispatchState)
    requires
        s.phase == (Phase::Submitting { eos: true }),
    ensures
        step_actions(s, Event::SubmitOk) =~= seq![
            Action::SpawnResponseDelivery { flow: s.flow },
        ],
        !has_spawn_pipe(step_actions(s, Event::SubmitOk)),
        next_phase(s, Event::SubmitOk) is CheckReady,
{
}

/// A body pipe is handed to the scheduler only when its first
/// synchronous poll came back pending: no other phase and no other
/// event ever spawns one.
pub proof fn lemma_pipe_spawn_source(s: DispatchState, e: Event)
    requires
        has_spawn_pipe(step_actions(s, e)),
    ensures
        s.phase is PipePolling,
        e is PipePending,
{
}

/// The pipe-polling phase is reached only by a successful submission of
/// a request whose body was not yet exhausted — so an exhausted body can
/// never reach the one transition that spawns a pipe.
pub proof fn lemma_pipe_polling_source(s: DispatchState, e: Event)
    requires
        phase_accepts(s.phase, e),
        next_phase(s, e) is PipePolling,
    ensures
        s.phase == (Phase::Submitting { eos: false }),
        e is SubmitOk,
{
}

/// A body pipe that completes on its first synchronous poll is never
/// handed to the scheduler: the step only spawns the response delivery.
pub proof fn lemma_first_poll_completion_not_scheduled(s: DispatchState)
    requires
        s.phase is PipePolling,
    ensures
        step_actions(s, Event::PipeDone) =~= seq![
            Action::SpawnResponseDelivery { flow: s.flow },
        ],
        !has_spawn_pipe(step_actions(s, Event::PipeDone)),
{
}

/// The state after running the machine over a whole sequence of events.
pub open spec fn run(s: DispatchState, events: Seq<Event>) -> DispatchState
    decreases events.len(),
{
    if events.len() == 0 {
        s
    } else {
        run(
            DispatchState { flow: s.flow, phase: next_phase(s, events[0]) },
            events.drop_first(),
        )
    }
}

/// All side effects of running the machine over a whole sequence of
/// events, in order.
pub open spec fn run_actions(s: DispatchState, events: Seq<Event>) -> Seq<Action>
    decreases events.len(),
{
    if events.len() == 0 {
        Seq::empty()
    } else {
        step_actions(s, events[0]) + run_actions(
            DispatchState { flow: s.flow, phase: next_phase(s, events[0]) },
            events.drop_first(),
        )
    }
}

proof fn lemma_has_submit_concat(a: Seq<Action>, b: Seq<Action>)
    ensures
        has_submit(a + b) == (has_submit(a) || has_submit(b)),
{
    if has_submit(a) {
        let i = choose|i: int| 0 <= i < a.len() && a[i] is Submit;
        assert((a + b)[i] is Submit);
    }
    if has_submit(b) {
        let i = choose|i: int| 0 <= i < b.len() && b[i] is Submit;
        assert((a + b)[a.len() + i] is Submit);
    }
    if has_submit(a + b) {
        let i = choose|i: int| 0 <= i < (a + b).len() && (a + b)[i] is Submit;
        if i < a.len() {
            assert(a[i] is Submit);
        } else {
            assert(b[i - a.len()] is Submit);
        }
    }
}

proof fn lemma_has_spawn_pipe_concat(a: Seq<Action>, b: Seq<Action>)
    ensures
        has_spawn_pipe(a + b) == (has_spawn_pipe(a) || has_spawn_pipe(b)),
{
    if has_spawn_pipe(a) {
        let i = choose|i: int| 0 <= i < a.len() && a[i] is SpawnPipe;
        assert((a + b)[i] is SpawnPipe);
    }
    if has_spawn_pipe(b) {
        let i = choose|i: int| 0 <= i < b.len() && b[i] is SpawnPipe;
        assert((a + b)[a.len() + i] is SpawnPipe);
    }
    if has_spawn_pipe(a + b) {
        let i = choose|i: int| 0 <= i < (a + b).len() && (a + b)[i] is SpawnPipe;
        if i < a.len() {
            assert(a[i] is SpawnPipe);
        } else {
            assert(b[i - a.len()] is SpawnPipe);
        }
    }
}

/// Over a whole run, however long: if every dequeued item was already
/// cancelled, the multiplexer never receives a single submission call.
pub proof fn lemma_run_cancelled_only_never_submits(s: DispatchState, events: Seq<Event>)
    requires
        forall|k: int|
            0 <= k < events.len() ==> ((#[trigger] events[k]) matches Event::Dequeued {
                item,
            } ==> item.cancelled),
    ensures
        !has_submit(run_actions(s, events)),
    decreases events.len(),
{
    if events.len() > 0 {
        let s1 = DispatchState { flow: s.flow, phase: next_phase(s, events[0]) };
        assert(forall|k: int|
            0 <= k < events.drop_first().len() ==> ((#[trigger] events.drop_first()[k])
                matches Event::Dequeued { item } ==> item.cancelled)) by {
            assert(forall|k: int|
                0 <= k < events.drop_first().len() ==> events.drop_first()[k] == events[k + 1]);
        }
        lemma_run_cancelled_only_never_submits(s1, events.drop_first());
        lemma_has_submit_concat(step_actions(s, events[0]), run_actions(s1, events.drop_first()));
        assert(events[0] matches Event::Dequeued { item } ==> item.cancelled);
    }
}

/// Over a whole run: every response delivery ever spawned carries the
/// flow-control handle fixed at setup — with adaptive windowing off,
/// the disabled one.
pub proof fn lemma_run_delivery_flow(s: DispatchState, events: Seq<Event>)
    ensures
        delivery_flow_is(run_actions(s, events), s.flow),
    decreases events.len(),
{
    if events.len() > 0 {
        let s1 = DispatchState { flow: s.flow, phase: next_phase(s, events[0]) };
        lemma_run_delivery_flow(s1, events.drop_first());
        lemma_delivery_carries_configured_flow(s, events[0]);
        let a = step_actions(s, events[0]);
        let b = run_actions(s1, events.drop_first());
        assert forall|i: int|
            0 <= i < run_actions(s, events).len() implies ((#[trigger] run_actions(s, events)[i])
            matches Action::SpawnResponseDelivery { flow: f } ==> f == s.flow) by {
            if i < a.len() {
                assert(run_actions(s, events)[i] == a[i]);
            } else {
                assert(run_actions(s, events)[i] == b[i - a.len()]);
            }
        }
    }
}

/// No request body pipe is pending in this phase: the one transition
/// that can lead to the pipe-spawning step is unreachable.
pub open spec fn no_pipe_underway(p: Phase) -> bool {
    &&& p !is PipePolling
    &&& (p matches Phase::Submitting { eos } ==> eos)
}

/// Over a whole run that starts with no pipe underway: if every
/// dequeued item was cancelled or carried a body already at
/// end-of-stream, no body-piping task is ever handed to the scheduler.
pub proof fn lemma_run_exhausted_bodies_never_piped(s: DispatchState, events: Seq<Event>)
    requires
        no_pipe_underway(s.phase),
        forall|k: int|
            0 <= k < events.len() ==> ((#[trigger] events[k]) matches Event::Dequeued {
                item,
            } ==> item.cancelled || item.body_eos),
    ensures
        !has_spawn_pipe(run_actions(s, events)),
        no_pipe_underway(run(s, events).phase),
    decreases events.len(),
{
    if events.len() > 0 {
        let s1 = DispatchState { flow: s.flow, phase: next_phase(s, events[0]) };
        assert(no_pipe_underway(s1.phase));
        assert(forall|k: int|
            0 <= k < events.drop_first().len() ==> ((#[trigger] events.drop_first()[k])
                matches Event::Dequeued { item } ==> item.cancelled || item.body_eos)) by {
            assert(forall|k: int|
                0 <= k < events.drop_first().len() ==> events.drop_first()[k] == events[k + 1]);
        }
        lemma_run_exhausted_bodies_never_piped(s1, events.drop_first());
        lemma_has_spawn_pipe_concat(
            step_actions(s, events[0]),
            run_actions(s1, events.drop_first()),
        );
    }
}

/// How a permanent closure surfaces; see [`closure_outcome`].
pub fn classify_closure(code: Option<u32>) -> (r: DispatchOutcome)
    ensures
        r == closure_outcome(code),
{
    match code {
        Some(c) => if c == NO_ERROR_CODE {
            DispatchOutcome::Shutdown
        } else {
            DispatchOutcome::ConnectionError { code: Some(c) }
        },
        None => DispatchOutcome::ConnectionError { code: None },
    }
}

} // verus!
