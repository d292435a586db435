//! The scope guard.
//!
//! [`Slot`] is the one-shot cell underneath: it holds a resource until it is
//! fired, and firing it a second time does nothing. Its destructor fires it,
//! which is what ties the cleanup to scope exit. [`AsyncDropx`] is the guard
//! users hold: a slot that is armed for as long as it can be observed, so
//! access to the resource through it cannot fail.

use crate::cleanup::AsyncDrop;
use crate::scheduler::route;
use crate::scheduler::submit;
use crate::scheduler::Backends;
use crate::scheduler::Submission;
use std::ops::Deref;
use std::ops::DerefMut;
use vstd::prelude::*;

verus! {

/// The slot once a destruction event has passed over it: always empty. This
/// is the step function of the model that [`handovers`] counts over.
pub open spec fn after_destruction<T>(slot: Option<T>) -> Option<T> {
    None
}

/// How many times `events` successive destruction events, starting from
/// `slot`, hand a resource over to produce its continuation.
pub open spec fn handovers<T>(slot: Option<T>, events: nat) -> nat
    decreases events,
{
    if events == 0 {
        0
    } else {
        let first: nat = if slot is Some {
            1
        } else {
            0
        };
        first + handovers(after_destruction(slot), (events - 1) as nat)
    }
}

/// Destruction of a disarmed slot hands nothing over, however often it
/// happens.
pub proof fn lemma_disarmed_is_inert<T>(events: nat)
    ensures
        handovers(None::<T>, events) == 0,
    decreases events,
{
    if events > 0 {
        lemma_disarmed_is_inert::<T>((events - 1) as nat);
    }
}

/// An armed slot that is destroyed hands its resource over exactly once:
/// once at the first destruction event and never again after it.
pub proof fn lemma_exactly_once<T>(resource: T, events: nat)
    requires
        events >= 1,
    ensures
        handovers(Some(resource), events) == 1,
{
    lemma_disarmed_is_inert::<T>((events - 1) as nat);
}

/// Calls the resource's own `AsyncDrop::async_drop`, which is written by
/// whoever implements the trait. It is called only for a type whose
/// implementor has promised, by `AsyncDrop::produces_without_panic`, that
/// the call returns normally; the contract repeats that promise as the
/// absence of unwinding, and says that the continuation is what the call
/// returned for this resource.
#[verifier::external_body]
fn continuation_of<T: AsyncDrop>(resource: T) -> (continuation: T::Dropper)
    requires
        T::produces_without_panic(),
    ensures
        call_ensures(T::async_drop, (resource,), continuation),
    opens_invariants none
    no_unwind
{
    resource.async_drop()
}

/// The value inside an occupied option, for writing.
fn held_mut<T>(cell: &mut Option<T>) -> (held: &mut T)
    requires
        *old(cell) is Some,
    ensures
        *held == old(cell)->0,
        *final(cell) == Some(*final(held)),
    opens_invariants none
    no_unwind
{
    match cell {
        Some(held) => held,
        None => vstd::pervasive::unreached(),
    }
}

/// A one-shot cell holding a resource with a cleanup obligation.
///
/// A slot is armed while it holds its resource and disarmed once the
/// resource has been taken out. It starts armed, and the only transition is
/// from armed to disarmed.
pub struct Slot<T: AsyncDrop + Send + 'static> {
    inner: Option<T>,
    backends: Backends,
}

impl<T: AsyncDrop + Send + 'static> Slot<T> {
    /// The resource type has promised that producing the continuation never
    /// panics, so the destructor may produce it.
    #[verifier::type_invariant]
    spec fn producer_promised(&self) -> bool {
        T::produces_without_panic()
    }

    /// The resource held, if the slot is still armed.
    pub closed spec fn resource(&self) -> Option<T> {
        self.inner
    }

    /// The schedulers the cleanup may be handed to.
    pub closed spec fn backends(&self) -> Backends {
        self.backends
    }

    /// Creates an armed slot around `resource`. The resource type must have
    /// promised that producing its continuation never panics.
    pub fn new(resource: T, backends: Backends) -> (slot: Self)
        requires
            T::produces_without_panic(),
        ensures
            slot.resource() == Some(resource),
            slot.backends() == backends,
    {
        Slot { inner: Some(resource), backends }
    }

    /// Whether the slot still holds its resource.
    pub fn is_armed(&self) -> (armed: bool)
        ensures
            armed == self.resource().is_some(),
    {
        self.inner.is_some()
    }

    /// The resource of an armed slot.
    pub fn get(&self) -> (resource: &T)
        requires
            self.resource() is Some,
        ensures
            *resource == self.resource()->0,
    {
        self.inner.as_ref().unwrap()
    }

    /// The resource of an armed slot, for writing. What the caller leaves
    /// behind the reference is what the slot holds afterwards; the slot
    /// stays armed.
    pub fn get_mut(&mut self) -> (resource: &mut T)
        requires
            old(self).resource() is Some,
        ensures
            *resource == old(self).resource()->0,
            final(self).resource() == Some(*final(resource)),
            final(self).backends() == old(self).backends(),
        opens_invariants none
        no_unwind
    {
        proof {
            use_type_invariant(&*self);
        }
        held_mut(&mut self.inner)
    }

    /// Disarms the slot and produces the cleanup continuation of the
    /// resource it held. A disarmed slot yields nothing.
    pub fn take_continuation(&mut self) -> (continuation: Option<T::Dropper>)
        ensures
            final(self).resource() is None,
            final(self).backends() == old(self).backends(),
            match continuation {
                Some(produced) => old(self).resource() is Some && call_ensures(
                    T::async_drop,
                    (old(self).resource()->0,),
                    produced,
                ),
                None => old(self).resource() is None,
            },
        opens_invariants none
        no_unwind
    {
        proof {
            use_type_invariant(&*self);
        }
        let mut taken: Option<T> = None;
        core::mem::swap(&mut self.inner, &mut taken);
        match taken {
            Some(resource) => Some(continuation_of(resource)),
            None => None,
        }
    }

    /// One destruction event. An armed slot is disarmed, its resource is
    /// consumed to produce the continuation, and the continuation is
    /// submitted; the outcome of the submission is returned. A disarmed slot
    /// is left as it is and nothing is submitted.
    pub fn fire(&mut self) -> (outcome: Option<Submission>)
        ensures
            final(self).resource() is None,
            final(self).backends() == old(self).backends(),
            match outcome {
                Some(submission) => old(self).resource() is Some && (submission == route(
                    old(self).backends(),
                    true,
                ) || submission == route(old(self).backends(), false)),
                None => old(self).resource() is None,
            },
        opens_invariants none
        no_unwind
    {
        match self.take_continuation() {
            Some(continuation) => Some(submit(self.backends, continuation)),
            None => None,
        }
    }
}

impl<T: AsyncDrop + Send + 'static> Drop for Slot<T> {
    /// Fires the slot and leaves it disarmed. The outcome of the submission
    /// has nowhere to go and is discarded; a rejection has already been
    /// reported on standard error.
    fn drop(&mut self)
        ensures
            final(self).resource() is None,
            final(self).backends() == old(self).backends(),
        opens_invariants none
        no_unwind
    {
        let _ = self.fire();
    }
}

/// Wrapper that ensures `async_drop` is called when the value goes out of
/// scope.
///
/// The guard dereferences to the resource it wraps, so it is used just like
/// the resource. When it goes out of scope the resource is taken out,
/// consumed by `async_drop`, and the continuation is handed to a scheduler:
/// to Tokio if the scope ends inside a Tokio runtime, and to async-std
/// otherwise, unless the guard was built with a narrower set.
pub struct AsyncDropx<T: AsyncDrop + Send + 'static> {
    slot: Slot<T>,
}

impl<T: AsyncDrop + Send + 'static> View for AsyncDropx<T> {
    type V = T;

    /// The resource the guard holds.
    closed spec fn view(&self) -> T {
        self.slot.resource()->0
    }
}

impl<T: AsyncDrop + Send + 'static> AsyncDropx<T> {
    /// A guard is armed for as long as it exists.
    #[verifier::type_invariant]
    spec fn armed(&self) -> bool {
        self.slot.resource() is Some
    }

    /// The schedulers the cleanup may be handed to.
    pub closed spec fn backends(&self) -> Backends {
        self.slot.backends()
    }

    /// Creates a guard around `inner` that may use every supported
    /// scheduler. The resource type must have promised that producing its
    /// continuation never panics.
    pub fn new(inner: T) -> (guard: Self)
        requires
            T::produces_without_panic(),
        ensures
            guard@ == inner,
            guard.backends() == (Backends { tokio: true, async_std: true }),
    {
        AsyncDropx { slot: Slot::new(inner, Backends::all()) }
    }

    /// Creates a guard around `inner` that may use only `backends`. The
    /// resource type must have promised that producing its continuation
    /// never panics.
    pub fn with_backends(inner: T, backends: Backends) -> (guard: Self)
        requires
            T::produces_without_panic(),
        ensures
            guard@ == inner,
            guard.backends() == backends,
    {
        AsyncDropx { slot: Slot::new(inner, backends) }
    }

    /// Whether the guard still holds its resource. It always does: a guard
    /// is disarmed only by its destruction, after which it cannot be asked.
    ///
    /// This is an associated function, called as `AsyncDropx::is_armed(&g)`,
    /// so that it cannot hide a method of the resource.
    pub fn is_armed(guard: &Self) -> (armed: bool)
        ensures
            armed,
    {
        proof {
            use_type_invariant(guard);
        }
        guard.slot.is_armed()
    }
}

impl<T: AsyncDrop + Send + 'static> Deref for AsyncDropx<T> {
    type Target = T;

    /// Read access goes straight to the resource.
    fn deref(&self) -> (resource: &T)
        ensures
            *resource == self@,
    {
        proof {
            use_type_invariant(self);
        }
        self.slot.get()
    }
}

impl<T: AsyncDrop + Send + 'static> DerefMut for AsyncDropx<T> {
    /// Write access goes straight to the resource: what is written through
    /// the reference is what the guard holds afterwards.
    fn deref_mut(&mut self) -> (resource: &mut T)
        ensures
            *resource == old(self)@,
            final(self)@ == *final(resource),
            final(self).backends() == old(self).backends(),
    {
        proof {
            use_type_invariant(&*self);
        }
        self.slot.get_mut()
    }
}

} // verus!
