//! What proves that an allocation is released and that nothing uses it any more.
use crate::allocation_authority::Permit;
use crate::allocation_retirement::DomainClosure;
use crate::canonical::Json;
use crate::document::{
    field, flag_of, get_flag, get_integer, has_flag, has_text, integer_of, is_flag, is_same_document, is_text, same_document,
    text_of, Doc,
};
use crate::ids::{id_text, is_id_text, read_id, version_of, Id, OperationId};
use crate::store::allocation_retirement::{retirement_outcome, Error};
use crate::store::history::coordinator::PrefixRow;
use crate::store::rows::{is_settled, settled, text_is, AllocationRow, OperationRow};
use crate::text::same_text;
use vstd::prelude::*;
use vstd::string::*;

verus! {

/// The allocation is released.
pub open spec fn released(a: AllocationRow) -> bool {
    a.status@ == "released"@ && a.released_at is Some
}

/// Which operation a release may name.
pub open spec fn release_named_by(a: &AllocationRow, r: Result<OperationId, Error>) -> bool {
    match r {
        Ok(id) => released(*a) && is_text(
            field(a.release_evidence@, "operation_id"@),
            id_text("op"@, id.value),
        ) && version_of(id.value) == 7,
        Err(Error::Ineligible) => !released(*a),
        Err(e) => {
            &&& e == Error::Evidence
            &&& released(*a)
            &&& !(text_of(field(a.release_evidence@, "operation_id"@)) matches Some(t) && is_id_text("op"@, t))
        },
    }
}

/// The operation that released an allocation, by its evidence.
pub fn releasing_operation(a: &AllocationRow) -> (r: Result<OperationId, Error>)
    ensures
        release_named_by(a, r),
{
    if !same_text(a.status.as_str(), "released") || a.released_at.is_none() {
        return Err(Error::Ineligible);
    }
    match a.release_evidence.get("operation_id") {
        Some(v) => match v.text() {
            Some(t) => match read_id::<OperationId>(t) {
                Some(id) => Ok(id),
                None => Err(Error::Evidence),
            },
            None => Err(Error::Evidence),
        },
        None => Err(Error::Evidence),
    }
}

/// One of the documents is this one.
pub open spec fn holds(items: Seq<Doc>, d: Doc) -> bool {
    exists|i: int| 0 <= i < items.len() && same_document(#[trigger] items[i], d)
}

/// A list holds a document.
pub open spec fn lists(receipts: Doc, d: Doc) -> bool {
    match receipts {
        Doc::List(items) => holds(items, d),
        _ => false,
    }
}

fn is_listed(receipts: &Json, d: &Json) -> (r: bool)
    ensures
        r == lists(receipts@, d@),
{
    match receipts {
        Json::List(items) => {
            proof {
                crate::document::lemma_docs(items@);
            }
            let ghost all = crate::document::docs(items@);
            let mut i: usize = 0;
            while i < items.len()
                invariant
                    *receipts == Json::List(*items),
                    all == crate::document::docs(items@),
                    all.len() == items@.len(),
                    forall|j: int| 0 <= j < items@.len() ==> #[trigger] all[j] == crate::document::doc(items@[j]),
                    i <= items@.len(),
                    forall|j: int| 0 <= j < i ==> !same_document(#[trigger] all[j], d@),
                decreases items@.len() - i,
            {
                assert(all[i as int] == items@[i as int]@);
                if is_same_document(&items[i], d) {
                    assert(holds(all, d@));
                    return true;
                }
                i = i + 1;
            }
            false
        },
        _ => false,
    }
}

/// The lifecycle operation that the evidence names has finished and retained
/// exactly this evidence, and so has the allocation's creation.
pub open spec fn release_recorded(op: OperationRow, id: OperationId, p: Permit, create_settled: bool, release: Doc) -> bool {
    &&& create_settled
    &&& (op.kind@ == "create"@ ==> id == p.create_operation)
    &&& settled(op)
    &&& lists(op.attempt_receipts@, release)
}

/// The evidence says that a create was rejected before anything was dispatched.
pub open spec fn rejection_evidence(op: OperationRow, id: OperationId, p: Permit, release: Doc) -> bool {
    &&& id == p.create_operation
    &&& is_flag(field(release, "dispatch_intent_absent"@), true)
    &&& op.attempt_count == 0
    &&& op.status@ == "failed"@
    &&& text_is(op.phase, "rejected_before_dispatch"@)
}

/// The epoch that reported a release, where the evidence names one, is not before
/// the allocation's nor after the one asking.
pub open spec fn reporting_plausible(release: Doc, p: Permit, epoch: i64) -> bool {
    field(release, "reporting_epoch"@) is Some ==> (integer_of(field(release, "reporting_epoch"@)) matches Some(v)
        && p.original_epoch <= v <= epoch)
}

/// The evidence says that the host released the permitted allocation under a
/// claim that the operation has had.
pub open spec fn release_evidence(op: OperationRow, p: Permit, release: Doc, epoch: i64) -> bool {
    &&& is_text(field(release, "host_id"@), id_text("hst"@, p.host.value))
    &&& is_text(field(release, "project_id"@), id_text("prj"@, p.project.value))
    &&& is_text(field(release, "sandbox_id"@), id_text("sbx"@, p.sandbox.value))
    &&& is_text(field(release, "allocation_id"@), id_text("alc"@, p.allocation.value))
    &&& op.attempt_count > 0
    &&& reporting_plausible(release, p, epoch)
    &&& (integer_of(field(release, "claim_revision"@)) matches Some(v) && 0 < v <= op.claim_revision)
    &&& integer_of(field(release, "generation"@)) == Some(p.generation)
    &&& integer_of(field(release, "supervisor_epoch"@)) == Some(p.original_epoch)
    &&& (integer_of(field(release, "observed_unix_ms"@)) matches Some(v) && v > 0)
    &&& flag_of(field(release, "simulated"@)) is Some
}

/// Whether the release was simulated; nothing where it is not proven.
pub open spec fn release_proven(
    op: OperationRow,
    id: OperationId,
    p: Permit,
    create_settled: bool,
    release: Doc,
    epoch: i64,
) -> Option<bool> {
    if !release_recorded(op, id, p, create_settled, release) {
        None
    } else if is_text(field(release, "phase"@), "rejected_before_dispatch"@) {
        if rejection_evidence(op, id, p, release) {
            Some(false)
        } else {
            None
        }
    } else if is_text(field(release, "phase"@), "allocation_released"@) {
        if release_evidence(op, p, release, epoch) {
            flag_of(field(release, "simulated"@))
        } else {
            None
        }
    } else {
        None
    }
}

fn is_release_evidence(op: &OperationRow, p: &Permit, release: &Json, epoch: i64) -> (r: bool)
    ensures
        r == release_evidence(*op, *p, release@, epoch),
{
    let reporting: bool = match release.get("reporting_epoch") {
        Some(v) => match v.integer() {
            Some(n) => n >= p.original_epoch && n <= epoch,
            None => false,
        },
        None => true,
    };
    let revision: bool = match get_integer(release, "claim_revision") {
        Some(v) => v > 0 && v <= op.claim_revision,
        None => false,
    };
    let generation: bool = match get_integer(release, "generation") {
        Some(v) => v == p.generation,
        None => false,
    };
    let original: bool = match get_integer(release, "supervisor_epoch") {
        Some(v) => v == p.original_epoch,
        None => false,
    };
    let observed: bool = match get_integer(release, "observed_unix_ms") {
        Some(v) => v > 0,
        None => false,
    };
    has_text(release, "host_id", p.host.to_string().as_str()) && has_text(
        release,
        "project_id",
        p.project.to_string().as_str(),
    ) && has_text(release, "sandbox_id", p.sandbox.to_string().as_str()) && has_text(
        release,
        "allocation_id",
        p.allocation.to_string().as_str(),
    ) && op.attempt_count > 0 && reporting && revision && generation && original && observed && get_flag(
        release,
        "simulated",
    ).is_some()
}

/// What a release may be found to prove.
pub open spec fn release_judged(
    a: &AllocationRow,
    p: &Permit,
    op: Option<&OperationRow>,
    create_settled: bool,
    allow_simulated: bool,
    epoch: i64,
    r: Result<bool, Error>,
) -> bool {
    match r {
        Ok(simulated) => {
            &&& released(*a)
            &&& exists|id: OperationId| #[trigger]
                is_text(field(a.release_evidence@, "operation_id"@), id_text("op"@, id.value)) && version_of(id.value)
                    == 7 && op is Some && release_proven(*op->0, id, *p, create_settled, a.release_evidence@, epoch) == Some(simulated)
            &&& (simulated ==> allow_simulated)
        },
        Err(Error::Ineligible) => !released(*a),
        Err(e) => {
            &&& e == Error::Evidence
            &&& released(*a)
            &&& forall|id: OperationId| #[trigger]
                is_text(field(a.release_evidence@, "operation_id"@), id_text("op"@, id.value)) && is_id_text(
                    "op"@,
                    id_text("op"@, id.value),
                ) && op is Some ==> (release_proven(
                    *op->0,
                    id,
                    *p,
                    create_settled,
                    a.release_evidence@,
                    epoch,
                ) matches Some(simulated) ==> simulated && !allow_simulated)
        },
    }
}

/// Prove an allocation's release from what is retained of it. `op` is the
/// operation that its evidence names, where it is a create or destroy of the
/// permit's project and sandbox; `create_settled` is whether the permit's creation
/// has finished and nobody owns it. Gives whether the release was simulated.
pub fn release(
    a: &AllocationRow,
    p: &Permit,
    op: Option<&OperationRow>,
    create_settled: bool,
    allow_simulated: bool,
    epoch: i64,
) -> (r: Result<bool, Error>)
    ensures
        release_judged(a, p, op, create_settled, allow_simulated, epoch, r),
{
    let id: OperationId = match releasing_operation(a) {
        Ok(id) => id,
        Err(e) => {
            return Err(e);
        },
    };
    assert(is_text(field(a.release_evidence@, "operation_id"@), id_text("op"@, id.value)));
    proof {
        assert forall|other: OperationId| #[trigger]
            is_text(field(a.release_evidence@, "operation_id"@), id_text("op"@, other.value)) implies other == id by {
            crate::guest_wire::lemma_id_text_injective("op"@, other.value, id.value);
        }
    }
    let op: &OperationRow = match op {
        Some(op) => op,
        None => {
            return Err(Error::Evidence);
        },
    };
    let evidence: &Json = &a.release_evidence;
    if !create_settled || (same_text(op.kind.as_str(), "create") && id != p.create_operation) || !is_settled(op)
        || !is_listed(&op.attempt_receipts, evidence) {
        return Err(Error::Evidence);
    }
    let simulated: bool = if has_text(evidence, "phase", "rejected_before_dispatch") {
        if id != p.create_operation || !has_flag(evidence, "dispatch_intent_absent", true) || op.attempt_count != 0
            || !same_text(op.status.as_str(), "failed") || !crate::store::rows::is_text(
            &op.phase,
            "rejected_before_dispatch",
        ) {
            return Err(Error::Evidence);
        }
        false
    } else if has_text(evidence, "phase", "allocation_released") {
        if !is_release_evidence(op, p, evidence, epoch) {
            return Err(Error::Evidence);
        }
        match get_flag(evidence, "simulated") {
            Some(b) => b,
            None => {
                return Err(Error::Evidence);
            },
        }
    } else {
        return Err(Error::Evidence);
    };
    if simulated && !allow_simulated {
        return Err(Error::Evidence);
    }
    Ok(simulated)
}

/// What those who still use an allocation may be found to be.
pub open spec fn consumers_checked(pending: bool, r: Result<(), Error>) -> bool {
    r == retirement_outcome(if pending {
        Some(Error::Ineligible)
    } else {
        None
    })
}

/// Nothing may still use the allocation. Unfinished lifecycle work counts for the
/// whole sandbox, because create and destroy are not pinned to allocations.
pub fn consumers(pending: bool) -> (r: Result<(), Error>)
    ensures
        consumers_checked(pending, r),
{
    if pending {
        return Err(Error::Ineligible);
    }
    Ok(())
}

/// What walking one batch of a domain's operations comes to: the last of them, if
/// every one may be retired.
pub open spec fn batch_closed(rows: Seq<PrefixRow>, last: Option<OperationId>) -> Result<Option<OperationId>, Error>
    decreases rows.len(),
{
    if rows.len() == 0 {
        Ok(last)
    } else {
        match rows[0].eligible {
            Err(_) => Err(Error::Evidence),
            Ok(None) => Err(Error::Ineligible),
            Ok(Some(_)) => batch_closed(rows.skip(1), Some(rows[0].id)),
        }
    }
}

/// What a batch of history may be found to close.
pub open spec fn batch_judged(
    rows: &Vec<PrefixRow>,
    last: Option<OperationId>,
    r: Result<Option<OperationId>, Error>,
) -> bool {
    r == batch_closed(rows@, last)
}

/// Walk one batch of a domain's operations. Batches bound memory without excluding
/// long-lived allocations: the next one starts behind the last of this one.
pub fn close_batch(rows: &Vec<PrefixRow>, last: Option<OperationId>) -> (r: Result<Option<OperationId>, Error>)
    ensures
        batch_judged(rows, last, r),
{
    let mut end: Option<OperationId> = last;
    let mut i: usize = 0;
    assert(rows@.skip(0) =~= rows@);
    while i < rows.len()
        invariant
            i <= rows@.len(),
            batch_closed(rows@, last) == batch_closed(rows@.skip(i as int), end),
        decreases rows@.len() - i,
    {
        proof {
            assert(rows@.skip(i as int)[0] == rows@[i as int]);
            assert(rows@.skip(i as int).skip(1) =~= rows@.skip(i + 1));
        }
        match &rows[i].eligible {
            Err(_) => {
                return Err(Error::Evidence);
            },
            Ok(None) => {
                return Err(Error::Ineligible);
            },
            Ok(Some(_)) => {},
        }
        end = Some(rows[i].id);
        i = i + 1;
    }
    Ok(end)
}

/// A retained completion of a prefix, with what it retained.
pub struct PrefixProof {
    pub through: OperationId,
    pub completion: Json,
}

/// The furthest proven prefix.
pub open spec fn furthest(proofs: Seq<PrefixProof>) -> Option<OperationId>
    decreases proofs.len(),
{
    if proofs.len() == 0 {
        None
    } else {
        let t = proofs.last().through;
        match furthest(proofs.drop_last()) {
            Some(f) => if f.value >= t.value {
                Some(f)
            } else {
                Some(t)
            },
            None => Some(t),
        }
    }
}

/// Whether any proof was simulated; nothing where one does not say.
pub open spec fn any_simulated(proofs: Seq<PrefixProof>) -> Option<bool>
    decreases proofs.len(),
{
    if proofs.len() == 0 {
        Some(false)
    } else {
        match (any_simulated(proofs.drop_last()), flag_of(field(proofs.last().completion@, "simulated"@))) {
            (Some(a), Some(b)) => Some(a || b),
            _ => None,
        }
    }
}

proof fn lemma_flagless_proof(proofs: Seq<PrefixProof>, k: int)
    requires
        0 <= k < proofs.len(),
        flag_of(field(proofs[k].completion@, "simulated"@)) is None,
    ensures
        any_simulated(proofs) is None,
    decreases proofs.len(),
{
    if k < proofs.len() - 1 {
        assert(proofs.drop_last()[k] == proofs[k]);
        lemma_flagless_proof(proofs.drop_last(), k);
    }
}

fn proven(proofs: &Vec<PrefixProof>) -> (r: Option<(Option<OperationId>, bool)>)
    ensures
        match r {
            Some((f, s)) => f == furthest(proofs@) && any_simulated(proofs@) == Some(s),
            None => any_simulated(proofs@) is None,
        },
{
    let mut verified: Option<OperationId> = None;
    let mut simulated: bool = false;
    let mut i: usize = 0;
    assert(proofs@.take(0) =~= Seq::empty());
    while i < proofs.len()
        invariant
            i <= proofs@.len(),
            verified == furthest(proofs@.take(i as int)),
            any_simulated(proofs@.take(i as int)) == Some(simulated),
        decreases proofs@.len() - i,
    {
        proof {
            assert(proofs@.take(i + 1).drop_last() =~= proofs@.take(i as int));
            assert(proofs@.take(i + 1).last() == proofs@[i as int]);
        }
        let through: OperationId = proofs[i].through;
        verified = match verified {
            Some(f) => if f.uuid() >= through.uuid() {
                Some(f)
            } else {
                Some(through)
            },
            None => Some(through),
        };
        match get_flag(&proofs[i].completion, "simulated") {
            Some(b) => {
                simulated = simulated || b;
            },
            None => {
                proof {
                    lemma_flagless_proof(proofs@, i as int);
                }
                return None;
            },
        }
        i = i + 1;
    }
    assert(proofs@.take(i as int) =~= proofs@);
    Some((verified, simulated))
}

/// Everything reserved is within what is proven.
pub open spec fn reserved_proven(reserved: Seq<OperationId>, verified: Option<OperationId>) -> bool {
    match verified {
        Some(v) => forall|i: int| 0 <= i < reserved.len() ==> (#[trigger] reserved[i]).value <= v.value,
        None => reserved.len() == 0,
    }
}

fn is_reserved_proven(reserved: &Vec<OperationId>, verified: Option<OperationId>) -> (r: bool)
    ensures
        r == reserved_proven(reserved@, verified),
{
    let v: OperationId = match verified {
        Some(v) => v,
        None => {
            return reserved.len() == 0;
        },
    };
    let mut i: usize = 0;
    while i < reserved.len()
        invariant
            verified == Some(v),
            i <= reserved@.len(),
            forall|j: int| 0 <= j < i ==> (#[trigger] reserved@[j]).value <= v.value,
        decreases reserved@.len() - i,
    {
        if reserved[i].uuid() > v.uuid() {
            assert(reserved@[i as int].value > v.value);
            return false;
        }
        i = i + 1;
    }
    true
}

/// Why a domain is not closed, once every operation of it may be retired.
pub open spec fn closure_refusal(
    last: Option<OperationId>,
    proofs: Seq<PrefixProof>,
    reserved: Seq<OperationId>,
    allow_simulated: bool,
) -> Option<Error> {
    match any_simulated(proofs) {
        None => Some(Error::Evidence),
        Some(simulated) => if simulated && !allow_simulated {
            Some(Error::Evidence)
        } else if last != furthest(proofs) || !reserved_proven(reserved, furthest(proofs)) {
            Some(Error::Ineligible)
        } else {
            None
        },
    }
}

/// What a domain may be found to be closed by.
pub open spec fn closure_judged(
    last: Option<OperationId>,
    proofs: &Vec<PrefixProof>,
    reserved: &Vec<OperationId>,
    allow_simulated: bool,
    r: Result<(DomainClosure, bool), Error>,
) -> bool {
    match r {
        Ok((closure, simulated)) => {
            &&& closure_refusal(last, proofs@, reserved@, allow_simulated) is None
            &&& any_simulated(proofs@) == Some(simulated)
            &&& closure == (match last {
                Some(through) => DomainClosure::Retired { through },
                None => DomainClosure::Empty,
            })
        },
        Err(e) => closure_refusal(last, proofs@, reserved@, allow_simulated) == Some(e),
    }
}

/// Close a domain: the last operation is exactly the furthest proven prefix, and
/// nothing is reserved beyond it. Without any operation it is explicitly empty.
pub fn domain(
    last: Option<OperationId>,
    proofs: &Vec<PrefixProof>,
    reserved: &Vec<OperationId>,
    allow_simulated: bool,
) -> (r: Result<(DomainClosure, bool), Error>)
    ensures
        closure_judged(last, proofs, reserved, allow_simulated, r),
{
    let (verified, simulated): (Option<OperationId>, bool) = match proven(proofs) {
        Some(x) => x,
        None => {
            return Err(Error::Evidence);
        },
    };
    if simulated && !allow_simulated {
        return Err(Error::Evidence);
    }
    let same: bool = match (last, verified) {
        (Some(x), Some(y)) => x == y,
        (None, None) => true,
        _ => false,
    };
    if !same || !is_reserved_proven(reserved, verified) {
        return Err(Error::Ineligible);
    }
    Ok(
        (
            match last {
                Some(through) => DomainClosure::Retired { through },
                None => DomainClosure::Empty,
            },
            simulated,
        ),
    )
}

/// A closed domain is closed for good: nothing reserved lies beyond the closure,
/// and an empty closure has nothing reserved at all.
pub proof fn closures_cover_reservations(
    last: Option<OperationId>,
    proofs: Seq<PrefixProof>,
    reserved: Seq<OperationId>,
    allow_simulated: bool,
)
    requires
        closure_refusal(last, proofs, reserved, allow_simulated) is None,
    ensures
        forall|i: int| 0 <= i < reserved.len() ==> last is Some && (#[trigger] reserved[i]).value <= last->0.value,
        last is None ==> reserved.len() == 0,
{
}

} // verus!
