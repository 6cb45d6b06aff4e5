//! Nested sub-transactions with error recovery for a relational engine.
//!
//! A caller working inside one outer transaction can open nested,
//! independently committable or rollback-able scopes, run commands in them,
//! and recover from engine-raised failures without corrupting the engine's
//! bookkeeping.  The engine's process-wide state (the stack of open nested
//! transactions, the current resource owner and allocation scope, and a
//! possibly pending error record) is carried as an explicit [`engine::Engine`]
//! value threaded through every operation, so the whole lifecycle can be
//! reasoned about and exercised without a live server.
//!
//! The crate has three layers:
//! - [`subtxn`]: the sub-transaction lifecycle manager — a move-only handle
//!   that is finalized (committed or rolled back) exactly once;
//! - [`catch_error`]: the error-catching boundary — runs an operation under a
//!   protected call, rolls the scope back on an engine failure and surfaces
//!   the captured record as an ordinary value;
//! - [`checked`]: checked command execution — one command inside an ephemeral
//!   scope, composed from the two layers above.

pub mod catch_error;
pub mod checked;
pub mod engine;
pub mod error;
pub mod laws;
pub mod subtxn;
