use h2_dispatch::config::{Config, DEFAULT_CONN_WINDOW, DEFAULT_STREAM_WINDOW};
use h2_dispatch::dispatch::{
    classify_closure, content_length_directive, step, Action, DispatchOutcome, DispatchState,
    Event, Phase, QueueItem, FlowControl,
};
use h2_dispatch::driver::{
    driver_step, window_resize, DriverAction, DriverEvent, DriverPhase, LivenessCount,
};
use h2_dispatch::setup::{initial_dispatch_state, plan_setup};

fn item(cancelled: bool, body_len: Option<u64>, has_cl: bool, payload: bool, eos: bool) -> QueueItem {
    QueueItem {
        cancelled,
        body_len,
        has_content_length: has_cl,
        method_has_payload: payload,
        body_eos: eos,
    }
}

fn state(phase: Phase) -> DispatchState {
    DispatchState { flow: FlowControl::Disabled, phase }
}

#[test]
fn default_config_windows() {
    let c = Config::default();
    assert!(!c.adaptive_window);
    assert_eq!(c.initial_conn_window_size, 5 * 1024 * 1024);
    assert_eq!(c.initial_stream_window_size, 2 * 1024 * 1024);
    assert_eq!(c.initial_conn_window_size, DEFAULT_CONN_WINDOW);
    assert_eq!(c.initial_stream_window_size, DEFAULT_STREAM_WINDOW);
}

#[test]
fn setup_plan_fixed_windows() {
    let plan = plan_setup(&Config::default());
    assert_eq!(plan.initial_conn_window_size, 5 * 1024 * 1024);
    assert_eq!(plan.initial_stream_window_size, 2 * 1024 * 1024);
    assert!(!plan.push_enabled);
    assert_eq!(plan.flow, FlowControl::Disabled);
    assert!(!plan.adaptive_driver);
    let s = initial_dispatch_state(&plan);
    assert_eq!(s.flow, FlowControl::Disabled);
    assert_eq!(s.phase, Phase::CheckReady);
}

#[test]
fn setup_plan_adaptive() {
    let config = Config {
        adaptive_window: true,
        initial_conn_window_size: 1 << 20,
        initial_stream_window_size: 1 << 16,
    };
    let plan = plan_setup(&config);
    assert_eq!(plan.flow, FlowControl::Adaptive);
    assert!(plan.adaptive_driver);
    assert!(!plan.push_enabled);
    assert_eq!(plan.estimator_seed_window, 1 << 16);
    assert_eq!(initial_dispatch_state(&plan).flow, FlowControl::Adaptive);
}

#[test]
fn cancelled_item_never_submitted() {
    let s = state(Phase::DrainQueue);
    let it = item(true, Some(32), false, true, false);
    let r = step(&s, &Event::Dequeued { item: it });
    assert_eq!(r.actions, vec![Action::DiscardItem]);
    assert!(!r.actions.iter().any(|a| matches!(a, Action::Submit { .. })));
    assert_eq!(r.phase, Phase::CheckReady);
}

#[test]
fn live_item_prepared_and_submitted() {
    let s = state(Phase::DrainQueue);
    let it = item(false, Some(32), false, true, false);
    let r = step(&s, &Event::Dequeued { item: it });
    assert_eq!(
        r.actions,
        vec![
            Action::StripConnectionHeaders,
            Action::SetContentLength { len: 32 },
            Action::Submit { eos: false },
        ]
    );
    assert_eq!(r.phase, Phase::Submitting { eos: false });
}

#[test]
fn content_length_positive_stamped() {
    assert_eq!(content_length_directive(&item(false, Some(7), false, false, false)), Some(7));
}

#[test]
fn content_length_zero_with_payload_method_stamped() {
    assert_eq!(content_length_directive(&item(false, Some(0), false, true, true)), Some(0));
}

#[test]
fn content_length_zero_without_payload_method_not_stamped() {
    assert_eq!(content_length_directive(&item(false, Some(0), false, false, true)), None);
}

#[test]
fn content_length_existing_header_kept() {
    assert_eq!(content_length_directive(&item(false, Some(7), true, true, false)), None);
}

#[test]
fn content_length_unknown_length_not_stamped() {
    assert_eq!(content_length_directive(&item(false, None, false, true, false)), None);
}

#[test]
fn graceful_closure_is_shutdown() {
    assert_eq!(classify_closure(Some(0)), DispatchOutcome::Shutdown);
    let s = state(Phase::CheckReady);
    let r = step(&s, &Event::ReadyClosed { code: Some(0) });
    assert_eq!(r.phase, Phase::Done { outcome: DispatchOutcome::Shutdown });
    assert!(r.actions.is_empty());
}

#[test]
fn other_closure_is_error() {
    assert_eq!(
        classify_closure(Some(11)),
        DispatchOutcome::ConnectionError { code: Some(11) }
    );
    let s = state(Phase::CheckReady);
    let r = step(&s, &Event::ReadyClosed { code: Some(2) });
    assert_eq!(
        r.phase,
        Phase::Done { outcome: DispatchOutcome::ConnectionError { code: Some(2) } }
    );
}

#[test]
fn codeless_closure_is_error() {
    assert_eq!(classify_closure(None), DispatchOutcome::ConnectionError { code: None });
}

#[test]
fn exhausted_body_never_piped() {
    let s = state(Phase::DrainQueue);
    let it = item(false, Some(0), false, true, true);
    let r = step(&s, &Event::Dequeued { item: it });
    assert_eq!(r.phase, Phase::Submitting { eos: true });
    let r = step(&DispatchState { phase: r.phase, ..s }, &Event::SubmitOk);
    assert_eq!(r.actions, vec![Action::SpawnResponseDelivery { flow: FlowControl::Disabled }]);
    assert!(!r.actions.iter().any(|a| matches!(a, Action::FirstPollPipe)));
    assert!(!r.actions.iter().any(|a| matches!(a, Action::SpawnPipe)));
    assert_eq!(r.phase, Phase::CheckReady);
}

#[test]
fn first_poll_completion_not_scheduled() {
    let s = state(Phase::PipePolling);
    let r = step(&s, &Event::PipeDone);
    assert_eq!(r.actions, vec![Action::SpawnResponseDelivery { flow: FlowControl::Disabled }]);
    assert!(!r.actions.iter().any(|a| matches!(a, Action::SpawnPipe)));
    assert_eq!(r.phase, Phase::CheckReady);
}

#[test]
fn pending_pipe_is_scheduled() {
    let s = state(Phase::PipePolling);
    let r = step(&s, &Event::PipePending);
    assert_eq!(
        r.actions,
        vec![
            Action::SpawnPipe,
            Action::SpawnResponseDelivery { flow: FlowControl::Disabled },
        ]
    );
    assert_eq!(r.phase, Phase::CheckReady);
}

#[test]
fn submit_failure_delivered_to_callback_only() {
    let s = state(Phase::Submitting { eos: false });
    let r = step(&s, &Event::SubmitFailed);
    assert_eq!(r.actions, vec![Action::DeliverSubmitError]);
    assert_eq!(r.phase, Phase::CheckReady);
}

#[test]
fn window_resize_disabled_never_resizes() {
    assert_eq!(window_resize(false, Some(65535)), None);
    assert_eq!(window_resize(false, None), None);
    assert_eq!(window_resize(true, Some(65535)), Some(65535));
    assert_eq!(window_resize(true, None), None);
}

#[test]
fn driver_liveness_zero_signals_then_drains() {
    let (phase, actions) = driver_step(&DriverPhase::Racing, &DriverEvent::LivenessZero);
    assert_eq!(phase, DriverPhase::Draining);
    assert_eq!(actions, vec![DriverAction::DropShutdownSignal]);
    let (phase, actions) = driver_step(&phase, &DriverEvent::ConnDone);
    assert_eq!(phase, DriverPhase::Finished);
    assert!(actions.is_empty());
}

#[test]
fn driver_conn_done_first_ends_task() {
    let (phase, actions) = driver_step(&DriverPhase::Racing, &DriverEvent::ConnDone);
    assert_eq!(phase, DriverPhase::Finished);
    assert_eq!(actions, vec![DriverAction::DropShutdownSignal]);
}

#[test]
fn liveness_count_reaches_zero_only_when_all_released() {
    let mut c = LivenessCount::new();
    assert!(!c.is_zero());
    c.clone_ref();
    c.clone_ref();
    c.drop_ref();
    assert!(!c.is_zero());
    c.drop_ref();
    assert!(!c.is_zero());
    c.drop_ref();
    assert!(c.is_zero());
}

#[test]
fn dispatch_ends_on_released_signal() {
    let s = state(Phase::AwaitDriver);
    let r = step(&s, &Event::SignalClosed);
    assert_eq!(r.phase, Phase::Done { outcome: DispatchOutcome::Shutdown });
}

#[test]
fn dispatch_suspends_on_open_signal() {
    let s = state(Phase::AwaitDriver);
    let r = step(&s, &Event::SignalPending);
    assert_eq!(r.phase, Phase::CheckReady);
    assert!(r.actions.is_empty());
}
