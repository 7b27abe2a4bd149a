//! Orchestration of units of work that are called directly.
//!
//! A unit here already stands behind a capture boundary: calling it yields
//! a completion result, whatever happened inside. The functions of this
//! module sequence such calls. Their contracts speak of a callable through
//! its own contract: `f.ensures(args, r)` says that `r` is a result of
//! calling `f` on `args`, and such a fact can only come from a call.
use vstd::prelude::*;
use crate::capability::{ErrorHandlerFunction, RecoverableFunction};
use crate::failure::{spawn_error_to_string, SyncSpawnResult};

verus! {

/// Whether `text` is the description of the failure that `result` carries.
pub open spec fn describes(result: SyncSpawnResult, text: Seq<char>) -> bool {
    result matches Err(err) && text == err.message()
}

/// Whether `handler` may be called with the description of every failure
/// that `unit` can end in.
pub open spec fn handles_failures_of<F: RecoverableFunction, E: ErrorHandlerFunction>(
    handler: E,
    unit: F,
) -> bool {
    forall|result: SyncSpawnResult, text: &str|
        #![trigger unit.ensures((), result), handler.requires((text,))]
        unit.ensures((), result) && describes(result, text@) ==> handler.requires((text,))
}

/// Whether `handler` was called with the description of the failure in
/// `result`.
pub open spec fn was_handled<E: ErrorHandlerFunction>(handler: E, result: SyncSpawnResult) -> bool {
    exists|text: &str, handled: SyncSpawnResult|
        describes(result, text@) && #[trigger] handler.ensures((text,), handled)
}

/// Whether `unit` was called.
pub open spec fn was_run<F: RecoverableFunction>(unit: F) -> bool {
    exists|result: SyncSpawnResult| #[trigger] unit.ensures((), result)
}

/// Whether `finalizer` may be called once the stages before it are through:
/// after `unit` has succeeded, and after `handler` has returned from the
/// description of a failure of `unit`.
pub open spec fn finalizes_after<F: RecoverableFunction, E: ErrorHandlerFunction, L: RecoverableFunction>(
    finalizer: L,
    unit: F,
    handler: E,
) -> bool {
    &&& forall|result: SyncSpawnResult|
        #![trigger unit.ensures((), result)]
        unit.ensures((), result) && result is Ok ==> finalizer.requires(())
    &&& forall|result: SyncSpawnResult, text: &str, handled: SyncSpawnResult|
        #![trigger unit.ensures((), result), handler.ensures((text,), handled)]
        unit.ensures((), result) && describes(result, text@) && handler.ensures((text,), handled)
            ==> finalizer.requires(())
}

/// Runs a unit of work once and hands back its completion result.
pub fn run_function<F: RecoverableFunction>(func: F) -> (result: SyncSpawnResult)
    requires
        func.requires(()),
    ensures
        func.ensures((), result),
{
    func()
}

/// Runs an error handler once on the description of a failure and hands
/// back the handler's own completion result.
pub fn run_error_handle_function<E: ErrorHandlerFunction>(func: E, error: &str) -> (result:
    SyncSpawnResult)
    requires
        func.requires((error,)),
    ensures
        func.ensures((error,), result),
{
    func(error)
}

/// *Run*: runs the unit; the result is the unit's completion result.
pub fn recoverable_spawn<F>(function: F) -> (result: SyncSpawnResult) where F: RecoverableFunction
    requires
        function.requires(()),
    ensures
        function.ensures((), result),
{
    run_function(function)
}

/// *Catch*: runs the unit and, if it failed, the error handler on the
/// description of the failure.
///
/// The result is the unit's completion result: a failure of the handler is
/// dropped. The handler is asked for nothing where the unit cannot fail, so
/// it is not called on success.
pub fn recoverable_spawn_catch<F, E>(function: F, error_handle_function: E) -> (result:
    SyncSpawnResult) where F: RecoverableFunction, E: ErrorHandlerFunction
    requires
        function.requires(()),
        handles_failures_of(error_handle_function, function),
    ensures
        function.ensures((), result),
        result is Err ==> was_handled(error_handle_function, result),
{
    let run_result: SyncSpawnResult = run_function(function);
    if let Err(err) = &run_result {
        let err_string: String = spawn_error_to_string(err);
        let _: SyncSpawnResult = run_error_handle_function(
            error_handle_function,
            err_string.as_str(),
        );
    }
    run_result
}

/// *Catch-finally*: runs the unit, then, if it failed, the error handler on
/// the description of the failure, then the finalizer.
///
/// The finalizer runs whether the unit failed or not and whatever became of
/// the handler. The result is the unit's completion result: failures of the
/// handler and of the finalizer are dropped. The finalizer is asked to be
/// callable only after a unit that succeeded and after a handler that has
/// returned, so it is not called before them.
pub fn recoverable_spawn_catch_finally<F, E, L>(
    function: F,
    error_handle_function: E,
    finally: L,
) -> (result: SyncSpawnResult) where
    F: RecoverableFunction,
    E: ErrorHandlerFunction,
    L: RecoverableFunction,

    requires
        function.requires(()),
        handles_failures_of(error_handle_function, function),
        finalizes_after(finally, function, error_handle_function),
    ensures
        function.ensures((), result),
        result is Err ==> was_handled(error_handle_function, result),
        was_run(finally),
{
    let run_result: SyncSpawnResult = run_function(function);
    if let Err(err) = &run_result {
        let err_string: String = spawn_error_to_string(err);
        let _: SyncSpawnResult = run_error_handle_function(
            error_handle_function,
            err_string.as_str(),
        );
    }
    let _: SyncSpawnResult = run_function(finally);
    run_result
}

} // verus!
