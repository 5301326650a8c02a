use h2_dispatch::config::Config;
use h2_dispatch::dispatch::{step, Action, DispatchOutcome, DispatchState, Event, Phase, QueueItem};
use h2_dispatch::reason::closure_event;
use h2_dispatch::setup::{initial_dispatch_state, plan_setup};

// Three requests over one connection with the default windows. Each
// spawned response delivery fires exactly one callback, as its own task,
// so completion order across the three is free; the dispatch task itself
// must not terminate until the producer handle is dropped and the queue
// is exhausted.
#[test]
fn three_concurrent_requests_then_shutdown() {
    let plan = plan_setup(&Config::default());
    assert_eq!(plan.initial_conn_window_size, 5 * 1024 * 1024);
    assert_eq!(plan.initial_stream_window_size, 2 * 1024 * 1024);
    let init = initial_dispatch_state(&plan);

    let items = [
        // exhausted body: no pipe at all
        QueueItem {
            cancelled: false,
            body_len: Some(0),
            has_content_length: false,
            method_has_payload: false,
            body_eos: true,
        },
        // trivial body: pipe completes on its first synchronous poll
        QueueItem {
            cancelled: false,
            body_len: Some(3),
            has_content_length: false,
            method_has_payload: true,
            body_eos: false,
        },
        // streaming body: pipe handed to the scheduler
        QueueItem {
            cancelled: false,
            body_len: None,
            has_content_length: false,
            method_has_payload: true,
            body_eos: false,
        },
    ];

    let mut phase = init.phase;
    let mut deliveries = 0usize;
    let mut pipes = 0usize;
    let mut run = |ph: Phase, e: Event, deliveries: &mut usize, pipes: &mut usize| -> Phase {
        let r = step(&DispatchState { flow: init.flow, phase: ph }, &e);
        for a in &r.actions {
            match a {
                Action::SpawnResponseDelivery { .. } => *deliveries += 1,
                Action::SpawnPipe => *pipes += 1,
                _ => {}
            }
        }
        r.phase
    };

    for (i, it) in items.iter().enumerate() {
        phase = run(phase, Event::ReadyOk, &mut deliveries, &mut pipes);
        assert_eq!(phase, Phase::DrainQueue);
        phase = run(phase, Event::Dequeued { item: *it }, &mut deliveries, &mut pipes);
        phase = run(phase, Event::SubmitOk, &mut deliveries, &mut pipes);
        if phase == Phase::PipePolling {
            let pipe_event = if i == 1 { Event::PipeDone } else { Event::PipePending };
            phase = run(phase, pipe_event, &mut deliveries, &mut pipes);
        }
        assert_eq!(phase, Phase::CheckReady);
        assert!(!matches!(phase, Phase::Done { .. }));
    }

    // All three submissions produced exactly one response delivery each;
    // only the streaming body was handed to the scheduler.
    assert_eq!(deliveries, 3);
    assert_eq!(pipes, 1);

    // The producer handle is still held: the queue is merely idle, the
    // shutdown signal still open, and the task keeps waiting.
    phase = run(phase, Event::ReadyOk, &mut deliveries, &mut pipes);
    phase = run(phase, Event::QueuePending, &mut deliveries, &mut pipes);
    assert_eq!(phase, Phase::AwaitDriver);
    phase = run(phase, Event::SignalPending, &mut deliveries, &mut pipes);
    assert_eq!(phase, Phase::CheckReady);

    // The producer handle is dropped: the exhausted queue ends the task
    // with a clean shutdown.
    phase = run(phase, Event::ReadyOk, &mut deliveries, &mut pipes);
    phase = run(phase, Event::QueueClosed, &mut deliveries, &mut pipes);
    assert_eq!(phase, Phase::Done { outcome: DispatchOutcome::Shutdown });
    assert_eq!(deliveries, 3);
}

// The closure event built from a real multiplexer error carries the
// protocol reason code, and the machine classifies it: the graceful
// reason ends in `Shutdown`, any other reason in an error with that
// code.
#[test]
fn multiplexer_closure_reasons_classified() {
    let graceful = closure_event(&h2::Error::from(h2::Reason::NO_ERROR));
    assert_eq!(graceful, Event::ReadyClosed { code: Some(0) });
    let s = DispatchState {
        flow: h2_dispatch::dispatch::FlowControl::Disabled,
        phase: Phase::CheckReady,
    };
    let r = step(&s, &graceful);
    assert_eq!(r.phase, Phase::Done { outcome: DispatchOutcome::Shutdown });

    let calm = closure_event(&h2::Error::from(h2::Reason::ENHANCE_YOUR_CALM));
    assert_eq!(calm, Event::ReadyClosed { code: Some(11) });
    let r = step(&s, &calm);
    assert_eq!(
        r.phase,
        Phase::Done { outcome: DispatchOutcome::ConnectionError { code: Some(11) } }
    );
}
