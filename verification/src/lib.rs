//! Supervision of an auxiliary long-running backend process: a monotonic
//! shared readiness flag, an output-stream monitor that recognizes readiness
//! markers, a health-probing loop with exponential backoff, and a supervisor
//! that owns the process handle and terminates it exactly once.

pub mod monitor;
pub mod prober;
pub mod readiness;
pub mod supervisor;
