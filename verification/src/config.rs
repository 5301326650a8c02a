//! Immutable handshake parameters: flow-control window sizes and the
//! adaptive-window toggle.

use vstd::prelude::*;

verus! {

/// Default connection-level flow-control window: 5 MiB. The protocol's
/// 64 KiB default is too limiting for the common, non-constrained case.
pub const DEFAULT_CONN_WINDOW: u32 = 1024 * 1024 * 5;

/// Default per-stream flow-control window: 2 MiB.
pub const DEFAULT_STREAM_WINDOW: u32 = 1024 * 1024 * 2;

/// Handshake parameters. Created once, consumed by setup, immutable
/// thereafter.
#[derive(Clone, Copy, Debug)]
pub struct Config {
    /// When true, an estimator samples round-trip times and the
    /// connection driver resizes the flow-control windows to its target.
    pub adaptive_window: bool,
    /// Initial connection-level flow-control window size.
    pub initial_conn_window_size: u32,
    /// Initial per-stream flow-control window size.
    pub initial_stream_window_size: u32,
}

impl Default for Config {
    /// Adaptive windowing off, 5 MiB connection window, 2 MiB stream
    /// window.
    fn default() -> (c: Config)
        ensures
            !c.adaptive_window,
            c.initial_conn_window_size == DEFAULT_CONN_WINDOW,
            c.initial_stream_window_size == DEFAULT_STREAM_WINDOW,
    {
        Config {
            adaptive_window: false,
            initial_conn_window_size: DEFAULT_CONN_WINDOW,
            initial_stream_window_size: DEFAULT_STREAM_WINDOW,
        }
    }
}

} // verus!
