//! Retiring an allocation: under which permit, in which scope, and which report
//! completes it.
use crate::allocation_authority::Permit;
use crate::allocation_retirement::{intent_valid, request_json, valid_request_encodes, Intent, Request};
use crate::canonical::Json;
use crate::digest::{hex_text, sha256_of};
use crate::document::doc_text;
use crate::ids::{AllocationId, HostId, OperationId};
use crate::store::allocation_retirement::completion::{
    completion_accepted, completion_checked, completion_decision, completion_found, completion_retained,
    release_matched, Completion, CompletionRows, CompletionStep, MetadataEvidence,
};
use crate::store::allocation_retirement::scheduling::{retirement_scheduled, Candidate};
use crate::store::allocation_retirement::{
    permit_matched, retirement_claimed, retirement_policy_checked, retirement_prepared, scope_confirmed, scope_frozen,
    Error, RetirementRow, RetirementStep, ScopeEvidence,
};
use crate::store::output::Column;
use crate::store::rows::{permit_of, AllocationRow, PermitRow};
use crate::supervisor::AllocationMetadataObservation;
use vstd::utf8::*;
use vstd::prelude::*;

verus! {

/// The issued permit is of exactly this allocation: its host, project, sandbox,
/// generation and epoch.
pub open spec fn issued_for(p: PermitRow, a: AllocationRow) -> bool {
    &&& p.serial >= 0
    &&& p.allocation == a.id
    &&& p.host == a.host_id
    &&& p.project == a.project_id
    &&& p.sandbox == a.sandbox_id
    &&& p.generation == a.generation
    &&& p.original_epoch == a.supervisor_epoch
}

/// The permit says what its row says.
pub open spec fn permit_told(p: Permit, row: PermitRow) -> bool {
    &&& p.host == row.host
    &&& p.project == row.project
    &&& p.sandbox == row.sandbox
    &&& p.allocation == row.allocation
    &&& p.create_operation == row.create_operation
    &&& p.generation == row.generation
    &&& p.original_epoch == row.original_epoch
    &&& p.serial == row.serial
}

/// The two intents are the same intent.
pub open spec fn intents_alike(a: Intent, b: Intent) -> bool {
    a.version == b.version && a.retirement == b.retirement && a.permit == b.permit && a.commands == b.commands
        && a.files == b.files && a.release_evidence_sha256@ == b.release_evidence_sha256@ && a.simulated == b.simulated
}

/// The two requests are the same request under the same claim.
pub open spec fn requests_alike(a: Request, b: Request) -> bool {
    intents_alike(a.intent, b.intent) && a.reporting_epoch == b.reporting_epoch && a.revision == b.revision
        && a.expires_unix_ms == b.expires_unix_ms
}

/// A retirement policy names a real epoch and a lease of one second to five minutes.
pub proof fn allocation_policies_name_a_real_epoch(epoch: i64, seconds: u32, r: Result<(), Error>)
    requires
        retirement_policy_checked(epoch, seconds, r),
    ensures
        r is Ok <==> epoch >= 1 && seconds >= 1 && seconds <= 300,
        r is Err ==> r == Err::<(), Error>(Error::Policy),
{
}

/// A permit is of an allocation exactly where they agree in every identity.
pub proof fn permits_are_of_one_allocation(a: &AllocationRow, p: &Permit, r: Result<(), Error>)
    requires
        permit_matched(a, p, r),
    ensures
        r is Ok <==> a.id == p.allocation && a.host_id == p.host && a.project_id == p.project && a.sandbox_id
            == p.sandbox && a.generation == p.generation && a.supervisor_epoch == p.original_epoch,
        r is Err ==> r == Err::<(), Error>(Error::Evidence),
{
}

/// An allocation for which nothing was retired yet is retired under its own permit,
/// where that was issued for exactly it and not by a later epoch than reports.
pub proof fn permitted_allocations_are_retired(
    a: Option<&AllocationRow>,
    issued: Option<&PermitRow>,
    epoch: i64,
    r: Result<RetirementStep, Error>,
)
    requires
        retirement_prepared(a, issued, None, epoch, r),
    ensures
        a is None || issued is None <==> r == Err::<RetirementStep, Error>(Error::Ineligible),
        a is Some && issued is Some ==> {
            let good = issued_for(*issued->0, *a->0) && issued->0.original_epoch <= epoch;
            &&& good ==> (r matches Ok(RetirementStep::Proceed { permit, retirement }) && retirement is None
                && permit_told(permit, *issued->0))
            &&& !good ==> r == Err::<RetirementStep, Error>(Error::Evidence)
        },
{
}

/// An allocation whose retirement was begun goes on under the identity that was kept;
/// while somebody holds its claim, and once it is completed, it is held.
pub proof fn begun_retirements_go_on(
    a: AllocationRow,
    issued: PermitRow,
    old: RetirementRow,
    epoch: i64,
    kept: Result<Option<Completion>, Error>,
    permit: Permit,
    r: Result<RetirementStep, Error>,
)
    requires
        retirement_prepared(Some(&a), Some(&issued), Some(&old), epoch, r),
        issued_for(issued, a),
        issued.original_epoch <= epoch,
        permit_told(permit, issued),
        completion_retained(&old, &permit, &a, kept),
    ensures
        kept is Err ==> r == Err::<RetirementStep, Error>(kept->Err_0),
        kept matches Ok(x) ==> {
            &&& x is Some || old.busy <==> r == Ok::<RetirementStep, Error>(RetirementStep::Held)
            &&& x is None && !old.busy <==> (r matches Ok(RetirementStep::Proceed { permit: p, retirement }) && p == permit
                && retirement == Some(old.retirement_id))
        },
{
    assert(permit_of(issued) == Some(permit));
}

/// The frozen scope of a retirement names its permit, its identity and what closed
/// each domain, holds the digest of exactly the release that is kept, and is simulated
/// where anything it rests on is, or where simulation was allowed.
pub proof fn scopes_freeze_what_was_proven(
    permit: Permit,
    retirement: OperationId,
    release: &Json,
    s: &ScopeEvidence,
    allow_simulated: bool,
    i: Intent,
)
    requires
        scope_frozen(permit, retirement, release, s, allow_simulated, Ok::<Intent, Error>(i)),
    ensures
        i.version == 1,
        i.retirement == retirement,
        i.permit == permit,
        i.commands == s.commands,
        i.files == s.files,
        i.simulated <==> allow_simulated || s.release_simulated || s.commands_simulated || s.files_simulated,
        i.release_evidence_sha256@ == hex_text(sha256_of(encode_utf8(doc_text(release@)))@),
{
}

/// A scope is confirmed where it is the one that was kept, or none was kept.
pub proof fn scopes_do_not_change(old: Option<&RetirementRow>, intent: &Intent, r: Result<(), Error>)
    requires
        scope_confirmed(old, intent, r),
    ensures
        r is Ok <==> (old matches Some(row) ==> (row.intent matches Column::Value(i) && intents_alike(i, *intent))),
        r is Err ==> r == Err::<(), Error>(Error::Evidence),
{
}

/// What a host is asked to retire is the frozen scope under the claim, until the end
/// of its lease in whole milliseconds.
pub proof fn retirement_requests_carry_the_claim(
    intent: Intent,
    epoch: i64,
    revision: i64,
    expires_at: i128,
    r: Result<Request, Error>,
)
    requires
        retirement_claimed(intent, epoch, revision, expires_at, r),
        0 <= expires_at <= 9223372036854775807 * 1000000,
    ensures
        r matches Ok(q) && q.intent == intent && q.reporting_epoch == epoch && q.revision == revision
            && q.expires_unix_ms * 1000000 <= expires_at < q.expires_unix_ms * 1000000 + 1000000,
{
}

/// The allocation is released, under the intent's permit, by exactly the evidence
/// whose digest the intent holds.
pub open spec fn released_as_intended(a: AllocationRow, i: Intent) -> bool {
    &&& a.id == i.permit.allocation
    &&& a.host_id == i.permit.host
    &&& a.project_id == i.permit.project
    &&& a.sandbox_id == i.permit.sandbox
    &&& a.generation == i.permit.generation
    &&& a.supervisor_epoch == i.permit.original_epoch
    &&& a.status@ == "released"@
    &&& a.released_at is Some
    &&& i.release_evidence_sha256@ == hex_text(sha256_of(encode_utf8(doc_text(a.release_evidence@)))@)
}

/// A release is of an intent exactly where it is the release that the intent froze.
pub proof fn releases_are_held_to_the_intent(a: &AllocationRow, i: &Intent, r: Result<(), Error>)
    requires
        release_matched(a, i, r),
    ensures
        released_as_intended(*a, *i) <==> r is Ok,
        r is Err ==> r == Err::<(), Error>(Error::Evidence),
{
}

/// The stamp lies in this millisecond.
pub open spec fn stamped(at: i128, millis: i64) -> bool {
    0 <= at && millis * 1000000 <= at < millis * 1000000 + 1000000
}

/// What is kept says that the retirement was completed: a report of this very claim,
/// made in time, of the physical intent that the row holds, and of the release that it
/// froze; and the claim has been given up.
pub open spec fn completion_kept(r: RetirementRow, e: MetadataEvidence, i: Intent, p: Permit, a: AllocationRow) -> bool {
    &&& e.version == 1
    &&& intent_valid(i)
    &&& !i.simulated
    &&& intents_alike(e.request.intent, i)
    &&& i.permit == p
    &&& i.retirement == r.retirement_id
    &&& p.allocation == r.allocation_id
    &&& e.request.revision == r.claim_revision
    &&& e.request.revision >= 1
    &&& e.request.reporting_epoch == r.reporting_epoch
    &&& e.request.reporting_epoch >= p.original_epoch
    &&& r.lease_expires_at is None
    &&& r.metadata_completed_at matches Some(at) && r.metadata_claim_expires_at matches Some(end) && {
        &&& at < end
        &&& stamped(end, e.request.expires_unix_ms)
        &&& e.observed_unix_ms >= 1
        &&& at / 1000000 - 10000 <= e.observed_unix_ms <= at / 1000000 + 5000
        &&& e.observed_unix_ms <= e.request.expires_unix_ms
    }
    &&& released_as_intended(a, i)
}

/// The row's stamps are of times that a stamp of today can tell.
pub open spec fn stamps_in_time(r: RetirementRow) -> bool {
    &&& r.metadata_completed_at matches Some(t) ==> 0 <= t <= 253402300799999999999
    &&& r.metadata_claim_expires_at matches Some(t) ==> 0 <= t <= 253402300799999999999
    &&& r.lease_expires_at matches Some(t) ==> 0 <= t <= 253402300799999999999
    &&& r.forgotten_at matches Some(t) ==> 0 <= t <= 253402300799999999999
    &&& r.forget_claim_expires_at matches Some(t) ==> 0 <= t <= 253402300799999999999
    &&& r.forget_lease_expires_at matches Some(t) ==> 0 <= t <= 253402300799999999999
}

/// A completion is kept exactly where everything of it is intact, and is read back as
/// it was kept; nothing is kept where nothing was written, and anything between is no
/// evidence.
pub proof fn completions_are_kept_whole(
    r: &RetirementRow,
    p: &Permit,
    a: &AllocationRow,
    x: Result<Option<Completion>, Error>,
)
    requires
        completion_retained(r, p, a, x),
        stamps_in_time(*r),
    ensures
        x == Ok::<Option<Completion>, Error>(None) <==> r.metadata_completion is Absent && r.metadata_completed_at is None
            && r.metadata_claim_expires_at is None,
        (x matches Ok(Some(c)) && r.metadata_completion matches Column::Value(e) && c.request == e.request
            && c.observed_unix_ms == e.observed_unix_ms && Some(c.completed_at) == r.metadata_completed_at)
            <==> r.metadata_completion is Value && r.intent is Value && completion_kept(
            *r,
            r.metadata_completion->Value_0,
            r.intent->Value_0,
            *p,
            *a,
        ),
        x matches Ok(Some(_)) ==> r.metadata_completion is Value && r.intent is Value && completion_kept(
            *r,
            r.metadata_completion->Value_0,
            r.intent->Value_0,
            *p,
            *a,
        ),
        x is Err ==> x == Err::<Option<Completion>, Error>(Error::Evidence),
{
}

/// A completed retirement is found by its intent: it is physical, the row holds that
/// intent, and the allocation and its permit are there; where there is no row nothing
/// was completed.
pub proof fn completions_are_found_by_their_intent(
    intent: &Intent,
    r: Option<&RetirementRow>,
    a: Option<&AllocationRow>,
    issued: Option<&PermitRow>,
    x: Result<Option<Completion>, Error>,
)
    requires
        completion_found(intent, r, a, issued, x),
    ensures
        !intent_valid(*intent) || intent.simulated ==> x == Err::<Option<Completion>, Error>(Error::Evidence),
        intent_valid(*intent) && !intent.simulated && r is None ==> x == Ok::<Option<Completion>, Error>(None),
        r matches Some(row) && !(row.intent matches Column::Value(i) && intents_alike(i, *intent)) ==> x is Err,
        r is Some && (a is None || issued is None || issued->0.serial < 0) ==> x is Err,
        x matches Ok(Some(c)) ==> r matches Some(row) && row.metadata_completion matches Column::Value(e) && c.request
            == e.request && c.observed_unix_ms == e.observed_unix_ms && Some(c.completed_at)
            == row.metadata_completed_at,
{
}

/// A report counts only where it echoes, byte for byte, a physical request of a real
/// claim, and is dated.
pub proof fn reports_echo_their_request(q: &Request, o: &AllocationMetadataObservation, r: Result<(), Error>)
    requires
        completion_checked(q, o, r),
    ensures
        r is Ok <==> {
            &&& intent_valid(q.intent)
            &&& !q.intent.simulated
            &&& q.revision >= 1
            &&& q.reporting_epoch >= q.intent.permit.original_epoch
            &&& q.expires_unix_ms >= 1
            &&& o.observed_unix_ms >= 1
            &&& o.request matches Some(sent) && sent.request_json@ == encode_utf8(request_json(*q))
        },
        r is Err ==> r == Err::<(), Error>(Error::Evidence),
{
    if intent_valid(q.intent) {
        valid_request_encodes(*q);
    }
}

/// A completion goes on to be proven exactly while the host is current, the allocation
/// is there under the request's permit, and the claim that the request carries is still
/// held: its intent, revision, epoch and end.
pub proof fn held_claims_complete_their_retirement(
    rows: &CompletionRows,
    q: &Request,
    observed: i64,
    a: AllocationRow,
    issued: PermitRow,
    row: RetirementRow,
    r: Result<CompletionStep, Error>,
)
    requires
        completion_decision(*rows, *q, observed, r),
        rows.host_current,
        rows.allocation == Some(&a),
        rows.issued == Some(&issued),
        rows.retirement == Some(&row),
        issued_for(issued, a),
        permit_told(q.intent.permit, issued),
        row.metadata_completion is Absent,
        row.metadata_completed_at is None,
        row.metadata_claim_expires_at is None,
        stamps_in_time(row),
    ensures
        ({
            let mine = row.intent matches Column::Value(i) && intents_alike(i, q.intent) && row.retirement_id
                == i.retirement;
            let held = row.lease_expires_at matches Some(end) && q.revision == row.claim_revision && q.reporting_epoch
                == row.reporting_epoch && stamped(end, q.expires_unix_ms);
            &&& mine && held ==> (r matches Ok(CompletionStep::Prove { expires_at }) && row.lease_expires_at == Some(
                expires_at,
            ))
            &&& mine && !held ==> r == Err::<CompletionStep, Error>(Error::LostClaim)
            &&& !mine ==> r is Err
        }),
{
    assert(permit_of(issued) == Some(q.intent.permit));
}

/// A completion that was kept before answers the very same report alike, and any other
/// not at all.
pub proof fn kept_completions_answer_the_same_report(
    rows: &CompletionRows,
    q: &Request,
    observed: i64,
    a: AllocationRow,
    issued: PermitRow,
    row: RetirementRow,
    saved: Completion,
    r: Result<CompletionStep, Error>,
)
    requires
        completion_decision(*rows, *q, observed, r),
        rows.host_current,
        rows.allocation == Some(&a),
        rows.issued == Some(&issued),
        rows.retirement == Some(&row),
        issued_for(issued, a),
        permit_told(q.intent.permit, issued),
        completion_retained(&row, &q.intent.permit, &a, Ok::<Option<Completion>, Error>(Some(saved))),
    ensures
        requests_alike(saved.request, *q) && saved.observed_unix_ms == observed <==> r == Ok::<CompletionStep, Error>(
            CompletionStep::Saved(saved),
        ),
        !(requests_alike(saved.request, *q) && saved.observed_unix_ms == observed) ==> r == Err::<
            CompletionStep,
            Error,
        >(Error::Evidence),
{
    assert(permit_of(issued) == Some(q.intent.permit));
}

/// A report is lost where its host is no longer current, its allocation is gone, or no
/// retirement was begun, and counts for nothing where the permit is another.
pub proof fn reports_without_their_rows_are_lost(
    rows: &CompletionRows,
    q: &Request,
    observed: i64,
    r: Result<CompletionStep, Error>,
)
    requires
        completion_decision(*rows, *q, observed, r),
    ensures
        !rows.host_current || rows.allocation is None ==> r == Err::<CompletionStep, Error>(Error::LostClaim),
        rows.host_current && rows.allocation is Some && (rows.issued is None || !issued_for(
            *rows.issued->0,
            *rows.allocation->0,
        ) || !permit_told(q.intent.permit, *rows.issued->0)) ==> r == Err::<CompletionStep, Error>(Error::Evidence),
        rows.retirement is None ==> r is Err,
{
}

/// A proven completion is accepted exactly where the scope proven again is the one that
/// was asked for, its claim still lives, and the report is from no more than ten
/// seconds before now to no more than five after, and not past the claim; what is kept
/// is the request and when it was seen.
pub proof fn accepted_completions_are_fresh(
    q: &Request,
    scope: &Intent,
    observed: i64,
    now: i128,
    r: Result<MetadataEvidence, Error>,
)
    requires
        completion_accepted(q, scope, observed, now, r),
        0 <= now <= 253402300799999999999,
    ensures
        ({
            let same = intents_alike(*scope, q.intent);
            let live = intent_valid(q.intent) && q.revision >= 1 && now >= 1000000 && q.expires_unix_ms > now / 1000000
                && q.reporting_epoch >= q.intent.permit.original_epoch;
            let fresh = now / 1000000 - 10000 <= observed <= now / 1000000 + 5000 && observed <= q.expires_unix_ms;
            &&& same && live && fresh <==> r is Ok
            &&& !same ==> r == Err::<MetadataEvidence, Error>(Error::Evidence)
            &&& same && !live ==> r == Err::<MetadataEvidence, Error>(Error::LostClaim)
            &&& same && live && !fresh ==> r == Err::<MetadataEvidence, Error>(Error::Evidence)
        }),
        r matches Ok(e) ==> e.version == 1 && e.request == *q && e.observed_unix_ms == observed,
{
}

/// A scheduled retirement is of the allocation that was found, with the intent that was
/// kept, where that is physical and of the same allocation and host.
pub proof fn scheduled_retirements_keep_their_intent(
    allocation: AllocationId,
    host: HostId,
    intent: Column<Intent>,
    r: Result<Candidate, Error>,
)
    requires
        retirement_scheduled(allocation, host, intent, r),
    ensures
        intent is Absent ==> (r matches Ok(c) && c.allocation == allocation && c.intent is None),
        intent is Unreadable ==> r is Err,
        intent matches Column::Value(i) ==> {
            let good = intent_valid(i) && !i.simulated && i.permit.allocation == allocation && i.permit.host == host;
            &&& good ==> (r matches Ok(c) && c.allocation == allocation && c.intent == Some(i))
            &&& !good ==> r == Err::<Candidate, Error>(Error::Evidence)
        },
{
}

} // verus!
