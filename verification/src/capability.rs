//! The shapes of units of work and of error handlers.
//!
//! Each capability can be handed to another concurrency context: it owns
//! what it captures and is safe to send and to share. The traits classify
//! callables; every callable of the right shape has them.
use vstd::prelude::*;
use std::future::Future;
use std::sync::Arc;
use crate::failure::SyncSpawnResult;

verus! {

/// A callable that takes nothing, returns nothing and is called at most once.
pub trait FunctionOnceTrait: FnOnce() + Send + Sync + 'static {

}

impl<T> FunctionOnceTrait for T where T: FnOnce() + Send + Sync + 'static {

}

/// A callable that takes nothing, returns nothing and may be called again.
pub trait FunctionTrait: Fn() + Send + Sync + 'static {

}

impl<T> FunctionTrait for T where T: Fn() + Send + Sync + 'static {

}

/// A callable that takes nothing, returns nothing and may change what it
/// captured when it is called.
pub trait FunctionMutTrait: FnMut() + Send + Sync + 'static {

}

impl<T> FunctionMutTrait for T where T: FnMut() + Send + Sync + 'static {

}

/// A unit of work behind a capture boundary: called once, with no
/// arguments, it yields its completion result in place of terminating
/// abnormally.
pub trait RecoverableFunction: FnOnce() -> SyncSpawnResult + Send + Sync + 'static {

}

impl<T> RecoverableFunction for T where T: FnOnce() -> SyncSpawnResult + Send + Sync + 'static {

}

/// An error handler behind a capture boundary: called once, with the
/// description of a failure, it yields its own completion result.
pub trait ErrorHandlerFunction: FnOnce(&str) -> SyncSpawnResult + Send + Sync + 'static {

}

impl<T> ErrorHandlerFunction for T where T: FnOnce(&str) -> SyncSpawnResult + Send + Sync + 'static {

}

/// A unit of work that is awaited: called once, with no arguments, it
/// yields the suspension that does the work.
pub trait AsyncRecoverableFunction: Send + Sync + 'static {
    /// What the suspension yields when it completes.
    type Output: Send;

    /// The suspension that the unit yields.
    type Future: Future<Output = Self::Output> + Send;

    /// Whether the unit may be called.
    spec fn callable(&self) -> bool;

    /// Whether `future` is a suspension that calling the unit may yield.
    spec fn yields(&self, future: Self::Future) -> bool;

    /// Calls the unit.
    fn call(self) -> (future: Self::Future)
        requires
            self.callable(),
        ensures
            self.yields(future),
    ;
}

impl<F, Fut, O> AsyncRecoverableFunction for F where
    F: FnOnce() -> Fut + Send + Sync + 'static,
    Fut: Future<Output = O> + Send + 'static,
    O: Send + 'static,
 {
    type Output = O;

    type Future = Fut;

    open spec fn callable(&self) -> bool {
        self.requires(())
    }

    open spec fn yields(&self, future: Fut) -> bool {
        self.ensures((), future)
    }

    fn call(self) -> (future: Fut) {
        self()
    }
}

/// An error handler that is awaited: called once, with the description of
/// a failure, it yields the suspension that handles it.
pub trait AsyncErrorHandlerFunction: Send + Sync + 'static {
    /// The suspension that the handler yields.
    type Future: Future<Output = ()> + Send;

    /// Whether the handler may be called on `error`.
    spec fn callable(&self, error: Arc<String>) -> bool;

    /// Whether `future` is a suspension that calling the handler on `error`
    /// may yield.
    spec fn yields(&self, error: Arc<String>, future: Self::Future) -> bool;

    /// Calls the handler on the description of a failure.
    fn call(self, error: Arc<String>) -> (future: Self::Future)
        requires
            self.callable(error),
        ensures
            self.yields(error, future),
    ;
}

impl<F, Fut> AsyncErrorHandlerFunction for F where
    F: FnOnce(Arc<String>) -> Fut + Send + Sync + 'static,
    Fut: Future<Output = ()> + Send + 'static,
 {
    type Future = Fut;

    open spec fn callable(&self, error: Arc<String>) -> bool {
        self.requires((error,))
    }

    open spec fn yields(&self, error: Arc<String>, future: Fut) -> bool {
        self.ensures((error,), future)
    }

    fn call(self, error: Arc<String>) -> (future: Fut) {
        self(error)
    }
}

/// A shared unit of work that is awaited.
pub type ArcAsyncRecoverableFunction<O, F> = Arc<
    dyn AsyncRecoverableFunction<Output = O, Future = F>,
>;

/// A shared error handler that is awaited.
pub type ArcAsyncErrorHandlerFunction<O> = Arc<dyn AsyncErrorHandlerFunction<Future = O>>;

} // verus!
