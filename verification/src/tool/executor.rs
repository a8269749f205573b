//! Executors backed by closures. The runtime calls the closure; here the
//! handle only holds it.

use vstd::prelude::*;

verus! {

/// An executor backed by an asynchronous closure.
pub struct AsyncFnExecutor<F> {
    handler: F,
}

impl<F> AsyncFnExecutor<F> {
    /// The closure.
    pub closed spec fn spec_handler(self) -> F {
        self.handler
    }

    /// Wraps a closure.
    pub fn new(handler: F) -> (e: Self)
        ensures
            e.spec_handler() == handler,
    {
        AsyncFnExecutor { handler }
    }

    /// The closure.
    pub fn handler(&self) -> (h: &F)
        ensures
            *h == self.spec_handler(),
    {
        &self.handler
    }
}

/// An executor backed by a synchronous closure.
pub struct SyncFnExecutor<F> {
    handler: F,
}

impl<F> SyncFnExecutor<F> {
    /// The closure.
    pub closed spec fn spec_handler(self) -> F {
        self.handler
    }

    /// Wraps a closure.
    pub fn new(handler: F) -> (e: Self)
        ensures
            e.spec_handler() == handler,
    {
        SyncFnExecutor { handler }
    }

    /// The closure.
    pub fn handler(&self) -> (h: &F)
        ensures
            *h == self.spec_handler(),
    {
        &self.handler
    }
}

} // verus!
