//! Per-connection orchestration core of a multiplexed protocol client.
//!
//! Many logical request/response exchanges share one transport connection.
//! Three cooperating activities are coordinated here: inbound request
//! intake, outbound body streaming, and background connection pumping.
//! The decision logic of each activity is expressed as an explicit state
//! machine over plain values and verified; the surrounding async plumbing
//! performs the actions the machines emit and hands the outcomes back as
//! events.

pub mod config;
pub mod dispatch;
pub mod driver;
pub mod reason;
pub mod setup;
