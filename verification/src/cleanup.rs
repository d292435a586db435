//! The capability of a resource to clean itself up asynchronously.

use std::future::Future;
use vstd::prelude::*;

verus! {

/// A resource that requires asynchronous cleanup.
///
/// The single operation consumes the resource and yields the continuation
/// that, once driven to completion by a scheduler, performs every cleanup side
/// effect the resource needs.
///
/// Producing the continuation is the cheap part: it must not block, and all
/// real work belongs inside the continuation. A cleanup that can fail handles
/// the failure itself; nothing is reported back to the scope that released
/// the resource.
///
/// Producing the continuation happens inside a destructor, possibly while the
/// thread is already unwinding, where a second panic would end the process.
/// A guard therefore accepts only resource types that promise never to panic
/// in `async_drop`. An implementor makes that promise by defining
/// [`AsyncDrop::produces_without_panic`] as `true`. A resource type whose
/// `async_drop` may panic does not make it, and has to be wrapped in a type
/// that contains the panic before it is put under a guard.
pub trait AsyncDrop {
    /// The continuation returned by [`AsyncDrop::async_drop`]. It owns
    /// everything it needs, so it can outlive the releasing scope and move to
    /// another worker thread.
    type Dropper: Future<Output = ()> + Send + 'static;

    /// The implementor's promise that `async_drop` returns normally on every
    /// value of this type. Nothing is promised unless the implementor says
    /// so.
    open spec fn produces_without_panic() -> bool {
        false
    }

    /// Consumes the resource and produces its cleanup continuation.
    fn async_drop(self) -> Self::Dropper;
}

} // verus!
