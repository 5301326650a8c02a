//! The handshake/setup decisions: which parameters the protocol
//! handshake is performed with, which flow-control handle the dispatch
//! task carries, and whether the connection pump is wrapped with the
//! window estimator.
//!
//! The handshake itself consumes the transport and is performed by the
//! surrounding async code; on its failure no task is started. On success
//! the plan below says how the two tasks are assembled.

use vstd::prelude::*;
use crate::config::Config;
use crate::dispatch::{DispatchState, FlowControl, Phase};

verus! {

/// How the connection is set up after a successful handshake.
#[derive(Clone, Copy, Debug, PartialEq, Eq)]
pub struct SetupPlan {
    /// Initial per-stream window size handed to the handshake.
    pub initial_stream_window_size: u32,
    /// Initial connection-level window size handed to the handshake.
    pub initial_conn_window_size: u32,
    /// Server push is always disabled.
    pub push_enabled: bool,
    /// The flow-control handle kind attached to every delivered
    /// response.
    pub flow: FlowControl,
    /// Whether the connection pump is wrapped so that each cycle first
    /// consults the estimator and applies any new window target.
    pub adaptive_driver: bool,
    /// The window size the estimator starts from, in adaptive mode: the
    /// initial per-stream window.
    pub estimator_seed_window: u32,
}

/// The setup decisions for a configuration: the handshake uses the
/// configured window sizes with push disabled; adaptive windowing
/// decides whether the pump is wrapped and which handle kind responses
/// carry, so callers never branch on the toggle themselves.
pub fn plan_setup(config: &Config) -> (p: SetupPlan)
    ensures
        p.initial_stream_window_size == config.initial_stream_window_size,
        p.initial_conn_window_size == config.initial_conn_window_size,
        !p.push_enabled,
        p.flow == (if config.adaptive_window {
            FlowControl::Adaptive
        } else {
            FlowControl::Disabled
        }),
        p.adaptive_driver == config.adaptive_window,
        p.estimator_seed_window == config.initial_stream_window_size,
{
    SetupPlan {
        initial_stream_window_size: config.initial_stream_window_size,
        initial_conn_window_size: config.initial_conn_window_size,
        push_enabled: false,
        flow: if config.adaptive_window {
            FlowControl::Adaptive
        } else {
            FlowControl::Disabled
        },
        adaptive_driver: config.adaptive_window,
        estimator_seed_window: config.initial_stream_window_size,
    }
}

/// The dispatch task starts at the readiness check, carrying the
/// flow-control handle the plan chose.
pub fn initial_dispatch_state(p: &SetupPlan) -> (s: DispatchState)
    ensures
        s.flow == p.flow,
        s.phase is CheckReady,
{
    DispatchState { flow: p.flow, phase: Phase::CheckReady }
}

} // verus!
