//! What proves that an allocation was released, and that its history is closed.
use crate::allocation_authority::Permit;
use crate::allocation_retirement::DomainClosure;
use crate::document::{field, integer_of, is_text, same_document, Doc};
use crate::guest_wire::lemma_id_text_injective;
use crate::ids::{id_text, is_id_text, version_of, OperationId};
use crate::store::allocation_retirement::evidence::{
    any_simulated, batch_closed, batch_judged, closure_judged, furthest, release_judged, release_named_by, PrefixProof,
};
use crate::store::allocation_retirement::Error;
use crate::store::history::coordinator::PrefixRow;
use crate::store::laws::eligibility::at_rest;
use crate::store::rows::{AllocationRow, OperationRow};
use vstd::prelude::*;

verus! {

/// The two phases of a release are apart.
proof fn lemma_release_phases()
    ensures
        "rejected_before_dispatch"@ != "allocation_released"@,
{
    reveal_strlit("rejected_before_dispatch");
    reveal_strlit("allocation_released");
    assert("rejected_before_dispatch"@.len() == 24);
    assert("allocation_released"@.len() == 19);
}

/// A release names the operation that made it; an allocation that was not released is
/// not ready, and one whose release names none proves nothing.
pub proof fn releases_name_their_operation(a: &AllocationRow, r: Result<OperationId, Error>)
    requires
        release_named_by(a, r),
    ensures
        !(a.status@ == "released"@ && a.released_at is Some) <==> r == Err::<OperationId, Error>(Error::Ineligible),
        r matches Ok(id) ==> field(a.release_evidence@, "operation_id"@) == Some(Doc::Text(id_text("op"@, id.value))),
{
}

/// The same release is among what is kept of the operation.
pub open spec fn keeps_release(op: OperationRow, release: Doc) -> bool {
    op.attempt_receipts@ matches Doc::List(items) && exists|i: int|
        0 <= i < items.len() && same_document(#[trigger] items[i], release)
}

/// The release says of itself that the create was rejected before its dispatch, and the
/// create's own row says so too.
pub open spec fn rejection_told(op: OperationRow, id: OperationId, p: Permit, release: Doc) -> bool {
    &&& field(release, "phase"@) == Some(Doc::Text("rejected_before_dispatch"@))
    &&& field(release, "dispatch_intent_absent"@) == Some(Doc::Bool(true))
    &&& id == p.create_operation
    &&& op.attempt_count == 0
    &&& op.status@ == "failed"@
    &&& op.phase matches Some(phase) && phase@ == "rejected_before_dispatch"@
}

/// The release is a host's report of exactly the permit's allocation, dated, under a
/// claim that the operation has had, and from no epoch that has not been.
pub open spec fn release_told(op: OperationRow, p: Permit, release: Doc, epoch: i64, simulated: bool) -> bool {
    &&& field(release, "phase"@) == Some(Doc::Text("allocation_released"@))
    &&& field(release, "host_id"@) == Some(Doc::Text(id_text("hst"@, p.host.value)))
    &&& field(release, "project_id"@) == Some(Doc::Text(id_text("prj"@, p.project.value)))
    &&& field(release, "sandbox_id"@) == Some(Doc::Text(id_text("sbx"@, p.sandbox.value)))
    &&& field(release, "allocation_id"@) == Some(Doc::Text(id_text("alc"@, p.allocation.value)))
    &&& integer_of(field(release, "generation"@)) == Some(p.generation)
    &&& integer_of(field(release, "supervisor_epoch"@)) == Some(p.original_epoch)
    &&& op.attempt_count >= 1
    &&& integer_of(field(release, "claim_revision"@)) matches Some(n) && 1 <= n <= op.claim_revision
    &&& integer_of(field(release, "observed_unix_ms"@)) matches Some(n) && n >= 1
    &&& field(release, "reporting_epoch"@) is Some ==> (integer_of(field(release, "reporting_epoch"@)) matches Some(n)
        && p.original_epoch <= n <= epoch)
    &&& field(release, "simulated"@) == Some(Doc::Bool(simulated))
}

/// A release is proven exactly where the operation that it names is at rest and keeps
/// it, the create is settled, and it tells either that the create was rejected before
/// its dispatch or that the host released the permit's own allocation; a simulated one
/// only where simulation is allowed.
pub proof fn releases_are_proven_by_their_operation(
    a: &AllocationRow,
    p: &Permit,
    op: OperationRow,
    id: OperationId,
    create_settled: bool,
    allow_simulated: bool,
    epoch: i64,
    r: Result<bool, Error>,
)
    requires
        release_judged(a, p, Some(&op), create_settled, allow_simulated, epoch, r),
        a.status@ == "released"@,
        a.released_at is Some,
        field(a.release_evidence@, "operation_id"@) == Some(Doc::Text(id_text("op"@, id.value))),
        version_of(id.value) == 7,
    ensures
        ({
            let release = a.release_evidence@;
            let recorded = create_settled && (op.kind@ == "create"@ ==> id == p.create_operation) && at_rest(op)
                && keeps_release(op, release);
            &&& recorded && rejection_told(op, id, *p, release) ==> r == Ok::<bool, Error>(false)
            &&& recorded && release_told(op, *p, release, epoch, false) ==> r == Ok::<bool, Error>(false)
            &&& recorded && release_told(op, *p, release, epoch, true) && allow_simulated ==> r == Ok::<bool, Error>(
                true,
            )
            &&& r matches Ok(simulated) ==> recorded && (simulated ==> allow_simulated) && ((!simulated
                && rejection_told(op, id, *p, release)) || release_told(op, *p, release, epoch, simulated))
            &&& r is Err ==> r == Err::<bool, Error>(Error::Evidence)
        }),
{
    lemma_release_phases();
    let release = a.release_evidence@;
    let text = id_text("op"@, id.value);
    assert(is_id_text("op"@, text));
    assert forall|other: OperationId| field(release, "operation_id"@) == Some(
        Doc::Text(#[trigger] id_text("op"@, other.value)),
    ) implies other == id by {
        lemma_id_text_injective("op"@, other.value, id.value);
    }
    assert(is_text(field(release, "operation_id"@), text));
}

/// An allocation that was not released is not ready.
pub proof fn unreleased_allocations_are_not_ready(
    a: &AllocationRow,
    p: &Permit,
    op: Option<&OperationRow>,
    create_settled: bool,
    allow_simulated: bool,
    epoch: i64,
    r: Result<bool, Error>,
)
    requires
        release_judged(a, p, op, create_settled, allow_simulated, epoch, r),
    ensures
        a.status@ != "released"@ || a.released_at is None <==> r == Err::<bool, Error>(Error::Ineligible),
        op is None ==> r is Err,
{
}

proof fn lemma_batch(rows: Seq<PrefixRow>, last: Option<OperationId>, k: int)
    requires
        0 <= k <= rows.len(),
        forall|i: int| 0 <= i < k ==> ((#[trigger] rows[i]).eligible matches Ok(Some(_))),
    ensures
        k == rows.len() ==> batch_closed(rows, last) == Ok::<Option<OperationId>, Error>(
            if k == 0 {
                last
            } else {
                Some(rows[k - 1].id)
            },
        ),
        k < rows.len() && rows[k].eligible is Err ==> batch_closed(rows, last) == Err::<Option<OperationId>, Error>(
            Error::Evidence,
        ),
        k < rows.len() && rows[k].eligible is Ok && rows[k].eligible->Ok_0 is None ==> batch_closed(rows, last) == Err::<
            Option<OperationId>,
            Error,
        >(Error::Ineligible),
    decreases rows.len(),
{
    if k > 0 {
        let rest = rows.skip(1);
        assert(rows[0].eligible is Ok);
        assert forall|i: int| 0 <= i < k - 1 implies ((#[trigger] rest[i]).eligible matches Ok(Some(_))) by {
            assert(rest[i] == rows[i + 1]);
        }
        lemma_batch(rest, Some(rows[0].id), k - 1);
        if k < rows.len() {
            assert(rest[k - 1] == rows[k]);
        }
        if k > 1 {
            assert(rest[k - 2] == rows[k - 1]);
        }
    }
}

/// A batch of history is closed through its last operation where all of it can be
/// retired; otherwise the first operation that cannot be decides: one that must stay
/// makes the allocation not ready, one that cannot be judged proves nothing.
pub proof fn batches_close_where_all_can_be_retired(
    rows: &Vec<PrefixRow>,
    last: Option<OperationId>,
    k: int,
    r: Result<Option<OperationId>, Error>,
)
    requires
        batch_judged(rows, last, r),
        0 <= k <= rows@.len(),
        forall|i: int| 0 <= i < k ==> ((#[trigger] rows@[i]).eligible matches Ok(Some(_))),
    ensures
        k == rows@.len() && k == 0 ==> r == Ok::<Option<OperationId>, Error>(last),
        k == rows@.len() && k > 0 ==> r == Ok::<Option<OperationId>, Error>(Some(rows@[k - 1].id)),
        k < rows@.len() && rows@[k].eligible is Err ==> r == Err::<Option<OperationId>, Error>(Error::Evidence),
        k < rows@.len() && rows@[k].eligible is Ok && rows@[k].eligible->Ok_0 is None ==> r == Err::<
            Option<OperationId>,
            Error,
        >(Error::Ineligible),
{
    lemma_batch(rows@, last, k);
}

/// The flag of a retired prefix: whether its report was simulated.
pub open spec fn proof_flag(p: PrefixProof, simulated: bool) -> bool {
    field(p.completion@, "simulated"@) == Some(Doc::Bool(simulated))
}

proof fn lemma_furthest(proofs: Seq<PrefixProof>)
    ensures
        furthest(proofs) is None <==> proofs.len() == 0,
        furthest(proofs) matches Some(f) ==> (exists|i: int| 0 <= i < proofs.len() && (#[trigger] proofs[i]).through == f)
            && forall|i: int| 0 <= i < proofs.len() ==> (#[trigger] proofs[i]).through.value <= f.value,
        any_simulated(proofs) is Some <==> forall|i: int|
            0 <= i < proofs.len() ==> proof_flag(#[trigger] proofs[i], true) || proof_flag(proofs[i], false),
        any_simulated(proofs) matches Some(s) ==> (s <==> exists|i: int|
            0 <= i < proofs.len() && proof_flag(#[trigger] proofs[i], true)),
    decreases proofs.len(),
{
    if proofs.len() > 0 {
        let before = proofs.drop_last();
        lemma_furthest(before);
        let n = proofs.len() - 1;
        assert(proofs[n] == proofs.last());
        assert forall|i: int| 0 <= i < before.len() implies #[trigger] proofs[i] == before[i] by {}
        assert forall|i: int| 0 <= i < before.len() implies #[trigger] before[i] == proofs[i] by {}
        if any_simulated(before) is None {
            let i = choose|i: int|
                0 <= i < before.len() && !(proof_flag(#[trigger] before[i], true) || proof_flag(before[i], false));
            assert(proofs[i] == before[i]);
        }
        if exists|i: int| 0 <= i < before.len() && proof_flag(#[trigger] before[i], true) {
            let i = choose|i: int| 0 <= i < before.len() && proof_flag(#[trigger] before[i], true);
            assert(proofs[i] == before[i]);
        }
        if furthest(before) is Some {
            let i = choose|i: int| 0 <= i < before.len() && (#[trigger] before[i]).through == furthest(before)->0;
            assert(proofs[i] == before[i]);
        }
    }
}

/// A domain is closed exactly where its last operation is the furthest that a retired
/// prefix goes through, nothing is reserved beyond it, and every prefix says whether it
/// was simulated, which one may be only where simulation is allowed. What closes it is
/// that operation, or nothing where nothing was ever done.
pub proof fn domains_close_where_everything_was_retired(
    last: Option<OperationId>,
    proofs: &Vec<PrefixProof>,
    reserved: &Vec<OperationId>,
    allow_simulated: bool,
    r: Result<(DomainClosure, bool), Error>,
)
    requires
        closure_judged(last, proofs, reserved, allow_simulated, r),
    ensures
        ({
            let told = forall|i: int|
                0 <= i < proofs@.len() ==> proof_flag(#[trigger] proofs@[i], true) || proof_flag(proofs@[i], false);
            let any = exists|i: int| 0 <= i < proofs@.len() && proof_flag(#[trigger] proofs@[i], true);
            let reached = match last {
                Some(f) => (exists|i: int| 0 <= i < proofs@.len() && (#[trigger] proofs@[i]).through == f) && (forall|i: int|
                    0 <= i < proofs@.len() ==> (#[trigger] proofs@[i]).through.value <= f.value),
                None => proofs@.len() == 0,
            };
            let covered = match last {
                Some(f) => forall|i: int| 0 <= i < reserved@.len() ==> (#[trigger] reserved@[i]).value <= f.value,
                None => reserved@.len() == 0,
            };
            &&& !told || (any && !allow_simulated) <==> r == Err::<(DomainClosure, bool), Error>(Error::Evidence)
            &&& r is Ok ==> reached && covered
            &&& r matches Ok((closure, simulated)) ==> (simulated <==> any) && closure == (match last {
                Some(through) => DomainClosure::Retired { through },
                None => DomainClosure::Empty,
            })
        }),
        last is None && proofs@.len() == 0 && reserved@.len() == 0 ==> r == Ok::<(DomainClosure, bool), Error>(
            (DomainClosure::Empty, false),
        ),
{
    lemma_furthest(proofs@);
}

} // verus!
