//! Panic-safe execution of units of work.
//!
//! A unit of work runs behind a capture boundary, which turns an abnormal
//! termination into a failure value. On top of that this crate composes
//! three orchestrations: *run* (capture only), *catch* (capture, then hand a
//! description of the failure to an error handler) and *catch-finally*
//! (capture, handler, and a finalizer that always runs).
//!
//! - [`failure`] holds the failure values and how they are put into words.
//! - [`capability`] holds the shapes of units of work and error handlers.
//! - [`sync`] composes units that are called directly.
//! - [`lifecycle`] is the per-spawn state machine for units whose work is
//!   driven from outside this crate.
//! - [`laws`] states what holds of every run of that machine.
//! - [`interleaving`] states that spawns which run side by side do not
//!   interfere.
pub mod capability;
pub mod failure;
pub mod interleaving;
pub mod laws;
pub mod lifecycle;
pub mod sync;

pub use capability::{
    ArcAsyncErrorHandlerFunction, ArcAsyncRecoverableFunction, AsyncErrorHandlerFunction,
    AsyncRecoverableFunction, ErrorHandlerFunction, FunctionMutTrait, FunctionOnceTrait,
    FunctionTrait, RecoverableFunction,
};
pub use failure::{
    spawn_error_to_string, tokio_error_to_string, AsyncSpawnResult, SpawnError, SyncSpawnResult,
};
pub use sync::{
    recoverable_spawn, recoverable_spawn_catch, recoverable_spawn_catch_finally,
    run_error_handle_function, run_function,
};
