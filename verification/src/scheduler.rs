//! The scheduler adapter: one entry point, [`submit`], that hands a cleanup
//! continuation to whichever supported scheduler is enabled and reachable.
//!
//! Two schedulers are supported. Tokio accepts a continuation only from a
//! thread that is inside one of its runtimes; async-std runs a process-wide
//! executor and accepts from anywhere. When both are enabled Tokio is tried
//! first and async-std second. The adapter keeps no state: every submission
//! is decided from the enabled set and from what the calling thread's
//! environment answers at that moment, so submissions never order or
//! influence one another.

use std::future::Future;
use std::io::Write;
use vstd::prelude::*;

verus! {

/// A scheduler that can drive a cleanup continuation.
#[derive(Clone, Copy, Debug, PartialEq, Eq, Structural)]
pub enum Backend {
    /// The Tokio runtime the calling thread is currently inside.
    Tokio,
    /// The process-wide async-std executor.
    AsyncStd,
}

/// Why a continuation was not handed to any scheduler.
#[derive(Clone, Copy, Debug, PartialEq, Eq, Structural)]
pub enum Rejection {
    /// No scheduler is enabled at all.
    NoBackend,
    /// A scheduler is enabled, but none can be reached from the calling
    /// context.
    Unreachable,
}

/// The result of one submission.
#[derive(Clone, Copy, Debug, PartialEq, Eq, Structural)]
pub enum Submission {
    /// The named scheduler took ownership of the continuation and will drive
    /// it independently of the caller.
    Accepted(Backend),
    /// The continuation was dropped without being run.
    Rejected(Rejection),
}

/// The set of schedulers a submission may use.
#[derive(Clone, Copy, Debug, PartialEq, Eq, Structural)]
pub struct Backends {
    /// Whether Tokio may be used.
    pub tokio: bool,
    /// Whether async-std may be used.
    pub async_std: bool,
}

impl Backends {
    /// Every supported scheduler.
    pub fn all() -> (backends: Backends)
        ensures
            backends.tokio,
            backends.async_std,
    {
        Backends { tokio: true, async_std: true }
    }

    /// No scheduler: every submission is rejected.
    pub fn none() -> (backends: Backends)
        ensures
            !backends.tokio,
            !backends.async_std,
    {
        Backends { tokio: false, async_std: false }
    }
}

/// Where a submission ends up, given the enabled set and whether the calling
/// thread is inside a Tokio runtime.
///
/// Tokio has priority: it takes the continuation whenever it is enabled and
/// reachable. Otherwise async-std takes it if enabled. Otherwise the
/// submission is rejected, and the rejection tells an empty set apart from a
/// set whose only member is out of reach.
pub open spec fn route(backends: Backends, tokio_context: bool) -> Submission {
    if backends.tokio && tokio_context {
        Submission::Accepted(Backend::Tokio)
    } else if backends.async_std {
        Submission::Accepted(Backend::AsyncStd)
    } else if backends.tokio {
        Submission::Rejected(Rejection::Unreachable)
    } else {
        Submission::Rejected(Rejection::NoBackend)
    }
}

/// Decides where a submission goes. This is the whole of the adapter's
/// logic; [`submit`] asks the environment and then acts on this decision.
pub fn decide(backends: Backends, tokio_context: bool) -> (outcome: Submission)
    ensures
        outcome == route(backends, tokio_context),
    opens_invariants none
    no_unwind
{
    if backends.tokio && tokio_context {
        Submission::Accepted(Backend::Tokio)
    } else if backends.async_std {
        Submission::Accepted(Backend::AsyncStd)
    } else if backends.tokio {
        Submission::Rejected(Rejection::Unreachable)
    } else {
        Submission::Rejected(Rejection::NoBackend)
    }
}

/// The first enabled scheduler that is reachable wins: Tokio takes the
/// continuation exactly when it is enabled and the caller is inside one of
/// its runtimes, and async-std takes it exactly when it is enabled and Tokio
/// did not.
pub proof fn lemma_first_success_wins(backends: Backends, tokio_context: bool)
    ensures
        route(backends, tokio_context) == Submission::Accepted(Backend::Tokio) <==> backends.tokio
            && tokio_context,
        route(backends, tokio_context) == Submission::Accepted(Backend::AsyncStd)
            <==> backends.async_std && !(backends.tokio && tokio_context),
{
}

/// A submission is rejected exactly when no enabled scheduler is reachable.
/// The rejection is `NoBackend` exactly when nothing is enabled, whatever the
/// calling context, and `Unreachable` exactly when Tokio alone is enabled
/// and the caller is outside its runtimes.
pub proof fn lemma_rejection_classified(backends: Backends, tokio_context: bool)
    ensures
        route(backends, tokio_context) is Rejected <==> !backends.async_std && !(backends.tokio
            && tokio_context),
        route(backends, tokio_context) == Submission::Rejected(Rejection::NoBackend)
            <==> !backends.tokio && !backends.async_std,
        route(backends, tokio_context) == Submission::Rejected(Rejection::Unreachable)
            <==> backends.tokio && !tokio_context && !backends.async_std,
{
}

impl Rejection {
    /// The text of the diagnostic line for this rejection.
    pub open spec fn diagnostic_text(self) -> Seq<char> {
        match self {
            Rejection::NoBackend =>
                "AsyncDropx: No async runtime backend enabled (tokio/async-std). Cleanup leaked."@,
            Rejection::Unreachable =>
                "AsyncDropx: Failed to spawn async cleanup task. Runtime might be missing or shut down."@,
        }
    }

    /// The diagnostic line written to standard error when a submission is
    /// rejected for this reason. The wording may change; that the two
    /// reasons give different lines may not.
    pub fn diagnostic(self) -> (line: &'static str)
        ensures
            line@ == self.diagnostic_text(),
        opens_invariants none
        no_unwind
    {
        match self {
            Rejection::NoBackend =>
                "AsyncDropx: No async runtime backend enabled (tokio/async-std). Cleanup leaked.",
            Rejection::Unreachable =>
                "AsyncDropx: Failed to spawn async cleanup task. Runtime might be missing or shut down.",
        }
    }
}

/// The diagnostic line identifies the reason: two rejections with the same
/// line have the same classification.
pub proof fn lemma_diagnostic_tells_reason(a: Rejection, b: Rejection)
    requires
        a.diagnostic_text() == b.diagnostic_text(),
    ensures
        a == b,
{
    reveal_strlit(
        "AsyncDropx: No async runtime backend enabled (tokio/async-std). Cleanup leaked.",
    );
    reveal_strlit(
        "AsyncDropx: Failed to spawn async cleanup task. Runtime might be missing or shut down.",
    );
    assert(Rejection::NoBackend.diagnostic_text().len()
        != Rejection::Unreachable.diagnostic_text().len());
}

/// `tokio::runtime::Handle`, carried from the probe to the spawn and never
/// looked into.
#[verifier::external_type_specification]
#[verifier::external_body]
pub struct ExHandle(tokio::runtime::Handle);

/// Calls `tokio::runtime::Handle::try_current` and keeps the handle if there
/// is one, dropping the error otherwise. Whether there is one depends on the
/// calling thread, so nothing is claimed of the result. The contract claims
/// only that the call returns without unwinding, which Tokio documents.
#[verifier::external_body]
fn current_tokio_runtime() -> (runtime: Option<tokio::runtime::Handle>)
    opens_invariants none
    no_unwind
{
    tokio::runtime::Handle::try_current().ok()
}

/// Calls `tokio::runtime::Handle::spawn` and lets go of the join handle,
/// which detaches the task. Nothing is returned; the contract claims only
/// that the call returns without unwinding. A runtime that has been shut
/// down drops the task instead of running it.
#[verifier::external_body]
fn spawn_on_tokio<F>(runtime: &tokio::runtime::Handle, future: F) where
    F: Future<Output = ()> + Send + 'static,

    opens_invariants none
    no_unwind
{
    let _ = runtime.spawn(future);
}

/// Calls `async_std::task::spawn` and lets go of the join handle, which
/// detaches the task. Nothing is returned; the contract claims only that the
/// call returns without unwinding. No argument makes it panic; it does so
/// only if the process cannot start the executor's threads on first use.
#[verifier::external_body]
fn spawn_on_async_std<F>(future: F) where F: Future<Output = ()> + Send + 'static
    opens_invariants none
    no_unwind
{
    let _ = async_std::task::spawn(future);
}

/// Writes one line to `std::io::stderr()`. A failed write is ignored, so the
/// call returns without unwinding whatever the state of the stream; nothing
/// else is claimed.
#[verifier::external_body]
fn write_stderr(line: &str)
    opens_invariants none
    no_unwind
{
    let _ = writeln!(std::io::stderr(), "{}", line);
}

/// Hands `future` to the first enabled scheduler that is reachable from the
/// calling thread, and says where it went.
///
/// On acceptance the scheduler owns the continuation and drives it on its own
/// workers; the call returns without waiting for it. On rejection the
/// continuation is dropped without being run and one diagnostic line is
/// written to standard error. Rejection is not an error of the caller and is
/// never raised as a fault.
///
/// The outcome is [`route`] applied to `backends` and to what the environment
/// answered about the Tokio context. Where Tokio is not enabled the
/// environment is not consulted and both candidates coincide.
pub fn submit<F>(backends: Backends, future: F) -> (outcome: Submission) where
    F: Future<Output = ()> + Send + 'static,

    ensures
        outcome == route(backends, true) || outcome == route(backends, false),
    opens_invariants none
    no_unwind
{
    let runtime = if backends.tokio {
        current_tokio_runtime()
    } else {
        None
    };
    let tokio_context = match &runtime {
        Some(_) => true,
        None => false,
    };
    let outcome = decide(backends, tokio_context);
    match outcome {
        Submission::Accepted(Backend::Tokio) => match runtime {
            Some(handle) => spawn_on_tokio(&handle, future),
            None => {
                assert(false);
            },
        },
        Submission::Accepted(Backend::AsyncStd) => spawn_on_async_std(future),
        Submission::Rejected(rejection) => write_stderr(rejection.diagnostic()),
    }
    outcome
}

} // verus!
