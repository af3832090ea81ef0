//! An asynchronous request/response queue for a synchronous host.
//!
//! A host that ticks at a fixed cadence submits network requests without ever
//! blocking its tick, and later retrieves completed results on its own
//! schedule.  The verified core consists of the handle table that exposes
//! in-flight response objects across the foreign boundary, the queue's
//! command and completion model, the budget-bounded drain schedule, the
//! boundary validation of foreign inputs, and the configuration rules.  The
//! actual transport (worker thread, task scheduler, HTTP client) is driven by
//! an unverified shell around this crate.

pub mod config;
pub mod ffi;
pub mod handle_table;
pub mod networking_queue;
