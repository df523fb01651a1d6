//! Supervision logic for a fleet of sonar devices reachable over serial or
//! UDP links: device identity, the manager's registry and its lifecycle
//! rules, discovery reconciliation, and firmware-flashing orchestration.
//!
//! Everything here is plain data and decisions. The runtime that opens
//! transports, spawns tasks and child processes, and sleeps between
//! retries feeds outcomes into these functions and performs the actions
//! they return.

pub mod device;
pub mod discovery;
pub mod firmware;
pub mod flash;
pub mod manager;
pub mod progress;
pub mod request;
pub mod source;
pub mod text;
