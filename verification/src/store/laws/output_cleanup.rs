//! Cleaning up expired output: what is frozen, when it is due, and which report
//! completes it.
use crate::canonical::Json;
use crate::document::{same_document, Doc};
use crate::output::{OutputName, OutputRef, OutputRefs, OutputTicket};
use crate::store::laws::output::{owners_alike, plans_alike};
use crate::store::output::{Column, Evidence, OutputError, OutputWork};
use crate::store::output_cleanup::{
    batch_checked, cleanup_answered, cleanup_completed, cleanup_prepared, completion_validated, eligibility_read,
    manifest_made, same_manifest, CleanupCompletion, CleanupInventory, CleanupManifest, CleanupPreparation, CleanupStep,
    OutputRetirement,
};
use vstd::prelude::*;

verus! {

/// The two tickets are the same ticket.
pub open spec fn tickets_alike(a: OutputTicket, b: OutputTicket) -> bool {
    a.version == b.version && owners_alike(a.owner, b.owner) && a.upload_attempt == b.upload_attempt && a.output_limit
        == b.output_limit && a.created_unix_ms == b.created_unix_ms && a.expires_unix_ms == b.expires_unix_ms
        && a.delete_after_unix_ms == b.delete_after_unix_ms
}

/// The two references are the same object of the same plan.
pub open spec fn refs_alike(a: OutputRef, b: OutputRef) -> bool {
    &&& plans_alike(a.plan, b.plan)
    &&& a.etag@ == b.etag@
    &&& a.object_version is None <==> b.object_version is None
    &&& a.object_version is Some && b.object_version is Some ==> a.object_version->0@ == b.object_version->0@
}

/// The two manifests are the same manifest: the ticket, the plans and references of
/// both streams, and whether they were simulated.
pub open spec fn manifests_alike(a: CleanupManifest, b: CleanupManifest) -> bool {
    &&& a.version == b.version
    &&& tickets_alike(a.ticket, b.ticket)
    &&& a.simulated == b.simulated
    &&& a.plans is None <==> b.plans is None
    &&& a.plans is Some && b.plans is Some ==> plans_alike(a.plans->0.stdout, b.plans->0.stdout) && plans_alike(
        a.plans->0.stderr,
        b.plans->0.stderr,
    )
    &&& a.references is None <==> b.references is None
    &&& a.references is Some && b.references is Some ==> refs_alike(
        a.references->0.stdout,
        b.references->0.stdout,
    ) && refs_alike(a.references->0.stderr, b.references->0.stderr)
}

/// What is kept of a cleanup is this manifest, due at the ticket's own deletion time.
pub open spec fn inventory_kept(saved: Column<CleanupManifest>, due: Option<i128>, current: CleanupManifest) -> bool {
    &&& saved matches Column::Value(m) && manifests_alike(m, current)
    &&& due matches Some(t) && t == current.ticket.delete_after_unix_ms * 1000000
}

/// The retirement of this stream's object is of the object that was published.
pub open spec fn retires(r: OutputRetirement, published: OutputRef) -> bool {
    r.previous matches Some(p) && refs_alike(p, published)
}

/// What a worker reports of a cleanup answers the manifest: nothing was ever uploaded
/// where nothing was ever planned; otherwise both streams were retired, each one's own
/// object where one was published.
pub open spec fn answers(c: CleanupCompletion, m: CleanupManifest, streams_valid: bool) -> bool {
    match c {
        CleanupCompletion::NoUploadsAuthorized => m.plans is None && m.references is None,
        CleanupCompletion::Retired { stdout, stderr } => m.plans is Some && streams_valid && (
        m.references matches Some(refs) ==> retires(*stdout, refs.stdout) && retires(*stderr, refs.stderr)),
    }
}

/// Kept manifests and references are compared in every field.
pub proof fn manifests_agree_in_every_field(a: CleanupManifest, b: CleanupManifest)
    ensures
        same_manifest(a, b) <==> manifests_alike(a, b),
{
}

/// A manifest is made of the work that was saved: its ticket, its plans, whether it
/// was simulated, and the references that were published of those plans, if any were.
/// Output that was never uploaded, published or expired has none; published output
/// has two references, and output that is still uploading none.
pub proof fn manifests_are_made_of_the_saved_work(
    status: &str,
    e: &Evidence,
    work: OutputWork,
    raw: &Json,
    items: Seq<Doc>,
    refs: Column<OutputRefs>,
    r: Result<CleanupManifest, OutputError>,
)
    requires
        manifest_made(status, e, Some(work), raw, refs, r),
        raw@ == Doc::List(items),
    ensures
        r matches Ok(m) ==> {
            &&& m.version == 1
            &&& m.ticket == work.ticket
            &&& m.plans == work.plans
            &&& m.simulated == work.simulated
            &&& items.len() == 0 ==> m.references is None
            &&& items.len() != 0 ==> items.len() == 2 && (refs matches Column::Value(x) && m.references == Some(x))
        },
        items.len() == 0 ==> (r is Ok <==> status@ == "uploading"@ || status@ == "expired"@),
        items.len() != 0 && r is Ok ==> (status@ == "published"@ || status@ == "expired"@) && (refs matches Column::Value(
            x,
        ) && work.plans matches Some(p) && {
            &&& plans_alike(p.stdout, x.stdout.plan)
            &&& plans_alike(p.stderr, x.stderr.plan)
            &&& x.stdout.plan.name == OutputName::Stdout
            &&& x.stderr.plan.name == OutputName::Stderr
            &&& owners_alike(x.stdout.plan.owner, e.owner)
            &&& owners_alike(x.stderr.plan.owner, e.owner)
            &&& x.stdout.plan.size + x.stderr.plan.size <= e.receipt.output_limit
        }),
        r is Err ==> r == Err::<CleanupManifest, OutputError>(OutputError::Corrupt),
{
    reveal_strlit("uploading");
    reveal_strlit("published");
    reveal_strlit("expired");
    assert("uploading"@[0] != "published"@[0]);
    assert("expired"@.len() == 7);
    assert("published"@.len() == 9);
}

/// Where nothing was saved nothing can be cleaned up.
pub proof fn unsaved_work_has_no_manifest(
    status: &str,
    e: &Evidence,
    raw: &Json,
    refs: Column<OutputRefs>,
    r: Result<CleanupManifest, OutputError>,
)
    requires
        manifest_made(status, e, None, raw, refs, r),
    ensures
        r == Err::<CleanupManifest, OutputError>(OutputError::Corrupt),
{
}

/// A manifest is due when its ticket says it may be deleted.
pub proof fn manifests_are_due_at_their_deletion_time(manifest: &CleanupManifest, r: Result<i128, OutputError>)
    requires
        eligibility_read(manifest, r),
        0 <= manifest.ticket.delete_after_unix_ms <= 253402300799999,
    ensures
        r matches Ok(t) && t == manifest.ticket.delete_after_unix_ms * 1000000,
{
}

/// A cleanup that begins freezes its manifest; one that has begun goes on only with
/// the manifest and the due time that were frozen. Either way it is due at the
/// ticket's deletion time.
pub proof fn begun_cleanups_keep_their_manifest(
    saved: &Column<CleanupManifest>,
    saved_eligible: Option<i128>,
    current: &CleanupManifest,
    r: Result<i128, OutputError>,
)
    requires
        cleanup_prepared(saved, saved_eligible, current, r),
        0 <= current.ticket.delete_after_unix_ms <= 253402300799999,
    ensures
        r is Ok <==> *saved is Absent || inventory_kept(*saved, saved_eligible, *current),
        r matches Ok(t) ==> t == current.ticket.delete_after_unix_ms * 1000000,
        r is Err ==> r == Err::<i128, OutputError>(OutputError::Corrupt),
{
    if let Column::Value(m) = *saved {
        manifests_agree_in_every_field(m, *current);
    }
}

/// A prepared cleanup waits until it is due, and is then handed its manifest.
pub proof fn cleanups_wait_until_they_are_due(
    waiting: bool,
    eligible_at: i128,
    manifest: CleanupManifest,
    r: CleanupPreparation,
)
    requires
        cleanup_answered(waiting, eligible_at, manifest, r),
    ensures
        waiting <==> (r matches CleanupPreparation::Waiting { eligible_at: at } && at == eligible_at),
        !waiting <==> (r matches CleanupPreparation::Ready { manifest: m } && *m == manifest),
{
}

/// A cleanup is completed exactly where its frozen manifest is the current one, its
/// output has expired, what the worker reports answers the manifest, simulation is
/// allowed if it was simulated, and a receipt that was recorded before says the same;
/// such a receipt is not recorded again.
pub proof fn cleanups_complete_with_an_answer_to_their_manifest(
    inventory: &CleanupInventory,
    output_status: &str,
    current: &CleanupManifest,
    receipt: &CleanupCompletion,
    document: &Json,
    streams_valid: bool,
    allow_simulated: bool,
    r: Result<CleanupStep, OutputError>,
)
    requires
        cleanup_completed(
            inventory,
            output_status,
            current,
            receipt,
            document,
            streams_valid,
            allow_simulated,
            r,
        ),
        0 <= current.ticket.delete_after_unix_ms <= 253402300799999,
    ensures
        ({
            let kept = inventory_kept(inventory.manifest, inventory.eligible_at, *current) && output_status@
                == "expired"@;
            let allowed = current.simulated ==> allow_simulated;
            let answered = answers(*receipt, *current, streams_valid);
            let repeated = inventory.completed ==> (inventory.receipt matches Some(d) && same_document(
                d@,
                document@,
            ));
            &&& r is Ok <==> kept && allowed && answered && repeated
            &&& r is Ok && inventory.completed <==> r == Ok::<CleanupStep, OutputError>(CleanupStep::AlreadyRecorded)
            &&& r is Ok && !inventory.completed <==> r == Ok::<CleanupStep, OutputError>(CleanupStep::Record)
            &&& inventory.manifest is Absent ==> r == Err::<CleanupStep, OutputError>(OutputError::BadEvidence)
            &&& !(inventory.manifest is Absent) && !kept ==> r == Err::<CleanupStep, OutputError>(OutputError::Corrupt)
            &&& kept && !allowed ==> r == Err::<CleanupStep, OutputError>(OutputError::SimulationDenied)
            &&& kept && allowed && !(answered && repeated) ==> r == Err::<CleanupStep, OutputError>(
                OutputError::BadEvidence,
            )
        }),
{
    if let Column::Value(m) = inventory.manifest {
        manifests_agree_in_every_field(m, *current);
    }
}

/// A completed cleanup is valid exactly where it is found, its manifest is the
/// current one, and its receipt answers it.
pub proof fn completed_cleanups_answer_their_manifest(
    found: bool,
    saved: &Column<CleanupManifest>,
    receipt: &Column<CleanupCompletion>,
    saved_eligible: Option<i128>,
    current: &CleanupManifest,
    streams_valid: bool,
    r: Result<(), OutputError>,
)
    requires
        completion_validated(found, saved, receipt, saved_eligible, current, streams_valid, r),
        0 <= current.ticket.delete_after_unix_ms <= 253402300799999,
    ensures
        r is Ok <==> found && inventory_kept(*saved, saved_eligible, *current) && (*receipt matches Column::Value(c)
            && answers(c, *current, streams_valid)),
{
    if let Column::Value(m) = *saved {
        manifests_agree_in_every_field(m, *current);
    }
}

/// Cleanups are claimed one to a hundred at a time.
pub proof fn cleanup_batches_are_small(limit: u32, r: Result<i64, OutputError>)
    requires
        batch_checked(limit, r),
    ensures
        limit >= 1 && limit <= 100 <==> r == Ok::<i64, OutputError>(limit as i64),
        limit == 0 || limit > 100 <==> r == Err::<i64, OutputError>(OutputError::InvalidPolicy),
{
}

} // verus!
