//! A dedicated worker execution engine: an isolated unit of script execution
//! that talks to its owning context only through asynchronous message passing.
//!
//! The engine multiplexes three independently-arriving event sources — the
//! task inbox, the timer lane, and the debug-control lane — into one ordered
//! processing loop, supports cooperative cancellation through a monotonic
//! closing flag, and forwards uncaught script errors back to the owner.
//!
//! The crate separates the engine into:
//! - [`msgs`]: the message envelopes, dispatch events and error records;
//! - [`model`]: the mathematical model of the engine state and of one
//!   processing step, which every contract in the crate speaks of;
//! - [`identity`]: the scoped "current worker" identity cell;
//! - [`relay`]: the timer relay with its exactly-once delivery guarantee;
//! - [`engine`]: the executable engine — lanes, selector, dispatch, loop;
//! - [`owner`]: the owner-side handle, the spawn protocol and error-event
//!   delivery;
//! - [`laws`]: the proved laws — lane FIFO order, freedom from starvation,
//!   identity restoration, close correctness and single error forwarding.
//!
//! Blocking channel reads, thread creation and the script interpreter itself
//! live outside this crate; the engine receives their outcomes as plain
//! values and decides everything else.

pub mod msgs;
pub mod model;
pub mod identity;
pub mod relay;
pub mod engine;
pub mod owner;
pub mod laws;
