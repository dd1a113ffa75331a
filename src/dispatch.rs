//! The readiness-gated step that hands one request to a service.

use vstd::prelude::*;

verus! {

/// What a service reports when asked whether it can take a request.
#[derive(Debug, PartialEq, Eq)]
pub enum Readiness<E> {
    /// Not yet: ask again on the next wake.
    NotReady,
    /// The service takes a request now.
    Ready,
    /// The service cannot take any request.
    Failed(E),
}

/// What the handler does with the request that it holds.
#[derive(Debug, PartialEq, Eq)]
pub enum DispatchStep<R, E> {
    /// Suspend, keeping the request for the next poll.
    Suspend(R),
    /// End with the service's error; no request was sent.
    Fail(E),
    /// Hand the request to the service's call.
    Call(R),
}

pub open spec fn dispatch_outcome<R, E>(request: R, readiness: Readiness<E>) -> DispatchStep<R, E> {
    match readiness {
        Readiness::NotReady => DispatchStep::Suspend(request),
        Readiness::Ready => DispatchStep::Call(request),
        Readiness::Failed(e) => DispatchStep::Fail(e),
    }
}

/// Decides, for a pending request, what the service's readiness report means.
/// The request is moved, never copied, into the step.
pub fn dispatch_step<R, E>(request: R, readiness: Readiness<E>) -> (r: DispatchStep<R, E>)
    ensures
        r == dispatch_outcome(request, readiness),
{
    match readiness {
        Readiness::NotReady => DispatchStep::Suspend(request),
        Readiness::Ready => DispatchStep::Call(request),
        Readiness::Failed(e) => DispatchStep::Fail(e),
    }
}

/// Polls a pending request through the readiness reports `reports`: how many
/// times the handler suspended, and the step that ended the pending phase, if
/// one did.
pub open spec fn drive<R, E>(request: R, reports: Seq<Readiness<E>>) -> (nat, Option<DispatchStep<R, E>>)
    decreases reports.len(),
{
    if reports.len() == 0 {
        (0, None)
    } else {
        match dispatch_outcome(request, reports[0]) {
            DispatchStep::Suspend(held) => {
                let rest = drive(held, reports.drop_first());
                ((rest.0 + 1) as nat, rest.1)
            },
            other => (0, Some(other)),
        }
    }
}

/// `n` reports that the service is not ready, then one that it is.
pub open spec fn ready_after<E>(n: nat) -> Seq<Readiness<E>> {
    Seq::new(n, |i: int| Readiness::<E>::NotReady).push(Readiness::Ready)
}

/// A service that is not ready `n` times and then ready makes the handler
/// suspend exactly `n` times and then call the service once, with the
/// request it was given, unchanged.
pub proof fn lemma_ready_after_waits<R, E>(request: R, n: nat)
    ensures
        drive(request, ready_after::<E>(n)) == (n, Some(DispatchStep::<R, E>::Call(request))),
    decreases n,
{
    if n > 0 {
        assert(ready_after::<E>(n).drop_first() =~= ready_after::<E>((n - 1) as nat));
        lemma_ready_after_waits::<R, E>(request, (n - 1) as nat);
    }
}

} // verus!
