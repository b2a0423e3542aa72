//! A report that is told again: it is answered with what was kept of it.
use crate::allocation_retirement::{ForgetRequest, Request};
use crate::store::allocation_retirement::completion::{
    completion_checked, completion_found, completion_repeated, Completion,
};
use crate::store::allocation_retirement::forgetting::{
    forgetting_checked, forgetting_found, forgetting_repeated, ForgetRows, ForgettingCompletion,
};
use crate::store::allocation_retirement::{Error, RetirementRow};
use crate::store::laws::retirement::requests_alike;
use crate::store::rows::{AllocationRow, PermitRow};
use crate::supervisor::{AllocationForgetObservation, AllocationMetadataObservation};
use vstd::prelude::*;

verus! {

/// A report that was kept is answered with the completion that is found by its intent,
/// exactly where it repeats that completion's request and time; another report of the
/// same retirement is refused.
pub proof fn repeated_completions_are_answered_as_kept(
    q: &Request,
    o: &AllocationMetadataObservation,
    r: Option<&RetirementRow>,
    a: Option<&AllocationRow>,
    issued: Option<&PermitRow>,
    saved: Completion,
    x: Result<Option<Completion>, Error>,
)
    requires
        completion_repeated(q, o, r, a, issued, x),
        completion_checked(q, o, Ok::<(), Error>(())),
        completion_found(&q.intent, r, a, issued, Ok::<Option<Completion>, Error>(Some(saved))),
    ensures
        requests_alike(saved.request, *q) && saved.observed_unix_ms == o.observed_unix_ms <==> x == Ok::<
            Option<Completion>,
            Error,
        >(Some(saved)),
        !(requests_alike(saved.request, *q) && saved.observed_unix_ms == o.observed_unix_ms) ==> x == Err::<
            Option<Completion>,
            Error,
        >(Error::Evidence),
{
}

/// A report that does not echo its request is refused, one of which nothing was kept is
/// answered with nothing, and one that cannot be looked up fails as the lookup does.
pub proof fn first_completions_are_answered_with_nothing(
    q: &Request,
    o: &AllocationMetadataObservation,
    r: Option<&RetirementRow>,
    a: Option<&AllocationRow>,
    issued: Option<&PermitRow>,
    e: Error,
    x: Result<Option<Completion>, Error>,
)
    requires
        completion_repeated(q, o, r, a, issued, x),
    ensures
        completion_checked(q, o, Err::<(), Error>(Error::Evidence)) ==> x == Err::<Option<Completion>, Error>(
            Error::Evidence,
        ),
        completion_checked(q, o, Ok::<(), Error>(())) && completion_found(
            &q.intent,
            r,
            a,
            issued,
            Ok::<Option<Completion>, Error>(None),
        ) ==> x == Ok::<Option<Completion>, Error>(None),
        completion_checked(q, o, Ok::<(), Error>(())) && completion_found(
            &q.intent,
            r,
            a,
            issued,
            Err::<Option<Completion>, Error>(e),
        ) ==> x == Err::<Option<Completion>, Error>(e),
{
}

/// A report that an allocation is forgotten is answered with what was kept of it,
/// exactly where it repeats the request, the state and the time; another report of the
/// same allocation is refused.
pub proof fn repeated_forgettings_are_answered_as_kept(
    q: &ForgetRequest,
    o: &AllocationForgetObservation,
    all: &ForgetRows,
    saved: ForgettingCompletion,
    x: Result<Option<ForgettingCompletion>, Error>,
)
    requires
        forgetting_repeated(q, o, all, x),
        forgetting_checked(q, o, Ok::<(), Error>(())),
        forgetting_found(&q.claim.intent, all, Ok::<Option<ForgettingCompletion>, Error>(Some(saved))),
    ensures
        ({
            let repeated = saved.request.version == q.version && requests_alike(saved.request.claim, q.claim)
                && requests_alike(saved.request.metadata_request, q.metadata_request) && o.state == Some(saved.state)
                && saved.observed_unix_ms == o.observed_unix_ms;
            &&& repeated <==> x == Ok::<Option<ForgettingCompletion>, Error>(Some(saved))
            &&& !repeated ==> x == Err::<Option<ForgettingCompletion>, Error>(Error::Evidence)
        }),
{
}

/// A report that an allocation is forgotten, of which nothing was kept, is answered
/// with nothing; one that cannot be looked up fails as the lookup does.
pub proof fn first_forgettings_are_answered_with_nothing(
    q: &ForgetRequest,
    o: &AllocationForgetObservation,
    all: &ForgetRows,
    e: Error,
    x: Result<Option<ForgettingCompletion>, Error>,
)
    requires
        forgetting_repeated(q, o, all, x),
    ensures
        forgetting_checked(q, o, Err::<(), Error>(Error::Evidence)) ==> x == Err::<Option<ForgettingCompletion>, Error>(
            Error::Evidence,
        ),
        forgetting_checked(q, o, Ok::<(), Error>(())) && forgetting_found(
            &q.claim.intent,
            all,
            Ok::<Option<ForgettingCompletion>, Error>(None),
        ) ==> x == Ok::<Option<ForgettingCompletion>, Error>(None),
        forgetting_checked(q, o, Ok::<(), Error>(())) && forgetting_found(
            &q.claim.intent,
            all,
            Err::<Option<ForgettingCompletion>, Error>(e),
        ) ==> x == Err::<Option<ForgettingCompletion>, Error>(e),
{
}

} // verus!
