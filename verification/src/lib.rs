//! A gate for the worker-thread count of a process-wide fiber executor, and
//! the decisions of a thread that blocks on a fiber's result.

pub mod bridge;
pub mod gate;
pub mod history;

pub use crate::bridge::{next_step, poll_step, BridgeStep, MonitorState, POLL_INTERVAL_MILLIS};
pub use crate::gate::{
    effective_thread_count, get_thread_count, request_transition, set_thread_count, SharedGate,
    ThreadCountGate, LOCKED, UNSET,
};
