//! Asynchronous cleanup at scope exit.
//!
//! A resource that knows how to clean itself up asynchronously implements
//! [`AsyncDrop`]. Wrapping it in an [`AsyncDropx`] binds that cleanup to a
//! lexical scope: when the guard goes out of scope, on a normal return, an
//! early return or while unwinding, the resource is consumed, its cleanup
//! continuation is produced, and the continuation is handed to a background
//! task scheduler. The scope that released the resource does not wait for the
//! cleanup and never learns how it ended.
//!
//! Producing the continuation is the one piece of foreign code that runs
//! inside the destructor. A guard is built only around a resource type that
//! has promised not to panic there; see [`AsyncDrop`].
//!
//! The crate has three parts:
//!
//! * [`cleanup`]: the capability a resource implements;
//! * [`scheduler`]: the adapter that hands a continuation to one of the
//!   supported schedulers, or rejects it with a diagnostic;
//! * [`guard`]: the one-shot slot that fires on destruction, and the
//!   always-armed guard built on it.

pub mod cleanup;
pub mod guard;
pub mod scheduler;

pub use cleanup::AsyncDrop;
pub use guard::AsyncDropx;
pub use guard::Slot;
pub use scheduler::submit;
pub use scheduler::Backend;
pub use scheduler::Backends;
pub use scheduler::Rejection;
pub use scheduler::Submission;
