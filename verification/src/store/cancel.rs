//! Cancellation is its own operation. Only the target execution's owner may
//! interrupt the guest; cancellation claims can fence undispatched work and
//! reconcile the target's final status.
use crate::canonical::Json;
use crate::document::{field, json_text, lemma_pushed_member, Doc, Members};
use crate::idempotency::{IdempotencyKey, RequestDigest};
use crate::ids::{id_text, Id, OperationId, ProjectId, SandboxId};
use crate::store::dispatch::DispatchError;
use crate::store::retries::{digest_request, is_same_request, request_digest, same_request};
use crate::store::rows::{final_status, terminal, OperationRow, RetryRow};
use crate::text::same_text;
use crate::token::TokenKeyId;
use vstd::prelude::*;
use vstd::string::*;

verus! {

#[derive(Debug)]
pub struct CancelCommand {
    pub project_id: ProjectId,
    pub target: OperationId,
    pub key_id: TokenKeyId,
    pub idempotency_key: IdempotencyKey,
}

impl Clone for CancelCommand {
    fn clone(&self) -> (r: Self)
        ensures
            r == *self,
    {
        CancelCommand {
            project_id: self.project_id,
            target: self.target,
            key_id: self.key_id.clone(),
            idempotency_key: self.idempotency_key.clone(),
        }
    }
}

#[derive(Debug, PartialEq, Eq)]
pub enum CancelAdmission {
    Accepted { operation_id: OperationId, sandbox_id: SandboxId, status: String },
    ResponseExpired(OperationId),
    Unauthorized,
    NotFound,
    Unsupported,
    DigestConflict,
    Busy(OperationId),
}

#[derive(Debug, Clone, Copy, PartialEq, Eq, Structural)]
pub enum CancelProgress {
    Pending,
    Completed,
}

pub open spec fn cancel_target_path(target: OperationId) -> Seq<char> {
    "/v1/operations/"@ + id_text("op"@, target.value) + "/cancel"@
}

/// What the digest of a cancel request may be.
pub open spec fn cancel_digested(target: OperationId, r: RequestDigest) -> bool {
    r.bytes == request_digest(
        "POST"@,
        cancel_target_path(target),
        Doc::Object(Seq::<(Seq<char>, Doc)>::empty()),
    )
}

/// The digest of a cancel request: its target path and an empty body.
pub fn cancel_digest(target: OperationId) -> (r: RequestDigest)
    ensures
        cancel_digested(target, r),
{
    let mut path: String = "/v1/operations/".to_owned();
    path.append(target.to_string().as_str());
    path.append("/cancel");
    digest_request("POST", path.as_str(), &Members::new().object())
}

pub open spec fn cancel_result(target: OperationId, status: Seq<char>) -> Doc {
    Doc::Object(
        Seq::<(Seq<char>, Doc)>::empty().push(("target_operation_id"@, Doc::Text(id_text("op"@, target.value)))).push(
            ("target_status"@, Doc::Text(status)),
        ).push(("cancelled"@, Doc::Bool(status == "cancelled"@))),
    )
}

/// What a finished cancellation reports of its target.
pub fn result(target: OperationId, status: &str) -> (r: Json)
    ensures
        r@ == cancel_result(target, status@),
{
    let mut m: Members = Members::new();
    m.put("target_operation_id", json_text(target.to_string().as_str()));
    m.put("target_status", json_text(status));
    m.put("cancelled", Json::Bool(same_text(status, "cancelled")));
    m.object()
}

/// What admitting a cancellation writes.
#[derive(Debug)]
pub struct CancelPlan {
    /// The target has already finished, so the cancellation has too.
    pub done: bool,
    pub sandbox_id: SandboxId,
    pub status: &'static str,
    pub phase: &'static str,
    pub result: Option<Json>,
}

#[derive(Debug)]
pub enum CancelDecision {
    Settled(CancelAdmission),
    Admit(CancelPlan),
}

/// What a cancel request is decided on. `target` is the target operation of the
/// project; `authorized` whether the project is active and the credential live,
/// where there is such a project; `old` an earlier use of the key; `pending`
/// another cancellation of the target that has not finished.
pub struct CancelRows<'a> {
    pub target: Option<&'a OperationRow>,
    pub authorized: Option<bool>,
    pub old: Option<&'a RetryRow>,
    pub pending: Option<OperationId>,
}

/// The answer that an earlier use of the key gives.
pub open spec fn cancel_retry(row: RetryRow, digest: [u8; 32], a: CancelAdmission) -> bool {
    if !same_request(row, RequestDigest { bytes: digest }) {
        a is DigestConflict
    } else if row.response_expired {
        a == CancelAdmission::ResponseExpired(row.id)
    } else {
        a matches CancelAdmission::Accepted { operation_id, sandbox_id, status } && operation_id == row.id && sandbox_id
            == row.sandbox_id && status@ == row.status@
    }
}

/// The target can be cancelled: it is a command, and either it has finished or it
/// is pinned to an allocation. A command without one cannot acquire invented
/// authority.
pub open spec fn cancellable(target: OperationRow) -> bool {
    target.kind@ == "execute"@ && (final_status(target.status@) || target.execution_allocation_id is Some)
}

/// The answer that comes of the rows without admitting anything.
pub open spec fn cancel_settled(rows: CancelRows, digest: [u8; 32], a: CancelAdmission) -> bool {
    if rows.authorized != Some(true) {
        a is Unauthorized
    } else if rows.old is Some {
        cancel_retry(*rows.old->0, digest, a)
    } else if rows.target is None {
        a is NotFound
    } else if !cancellable(*rows.target->0) {
        a is Unsupported
    } else {
        rows.pending matches Some(id) && a == CancelAdmission::Busy(id)
    }
}

/// A new cancellation is admitted.
pub open spec fn cancel_admitted(rows: CancelRows) -> bool {
    &&& rows.authorized == Some(true)
    &&& rows.old is None
    &&& (rows.target matches Some(t) && cancellable(*t))
    &&& rows.pending is None
}

pub open spec fn cancel_planned(p: CancelPlan, target: OperationRow) -> bool {
    &&& p.done == final_status(target.status@)
    &&& p.sandbox_id == target.sandbox_id
    &&& p.status@ == (if p.done {
        "succeeded"@
    } else {
        "queued"@
    })
    &&& p.phase@ == (if p.done {
        "cancel_complete"@
    } else {
        "cancel_requested"@
    })
    &&& if p.done {
        p.result matches Some(d) && d@ == cancel_result(target.id, target.status@)
    } else {
        p.result is None
    }
}

/// What a cancel request may be answered.
pub open spec fn cancel_decided(rows: &CancelRows, digest: &RequestDigest, r: CancelDecision) -> bool {
    match r {
        CancelDecision::Settled(a) => !cancel_admitted(*rows) && cancel_settled(*rows, digest.bytes, a),
        CancelDecision::Admit(p) => cancel_admitted(*rows) && cancel_planned(p, *rows.target->0),
    }
}

/// Decide a cancel request.
pub fn admit_cancel(rows: &CancelRows, digest: &RequestDigest) -> (r: CancelDecision)
    ensures
        cancel_decided(rows, digest, r),
{
    let authorized: bool = match rows.authorized {
        Some(a) => a,
        None => false,
    };
    if !authorized {
        return CancelDecision::Settled(CancelAdmission::Unauthorized);
    }
    if let Some(old) = rows.old {
        if !is_same_request(old, digest) {
            return CancelDecision::Settled(CancelAdmission::DigestConflict);
        }
        if old.response_expired {
            return CancelDecision::Settled(CancelAdmission::ResponseExpired(old.id));
        }
        return CancelDecision::Settled(
            CancelAdmission::Accepted { operation_id: old.id, sandbox_id: old.sandbox_id, status: old.status.clone() },
        );
    }
    let target: &OperationRow = match rows.target {
        Some(t) => t,
        None => {
            return CancelDecision::Settled(CancelAdmission::NotFound);
        },
    };
    if !same_text(target.kind.as_str(), "execute") {
        return CancelDecision::Settled(CancelAdmission::Unsupported);
    }
    let done: bool = terminal(target.status.as_str());
    if !done && target.execution_allocation_id.is_none() {
        return CancelDecision::Settled(CancelAdmission::Unsupported);
    }
    if let Some(id) = rows.pending {
        return CancelDecision::Settled(CancelAdmission::Busy(id));
    }
    CancelDecision::Admit(
        CancelPlan {
            done,
            sandbox_id: target.sandbox_id,
            status: if done {
                "succeeded"
            } else {
                "queued"
            },
            phase: if done {
                "cancel_complete"
            } else {
                "cancel_requested"
            },
            result: if done {
                Some(result(target.id, target.status.as_str()))
            } else {
                None
            },
        },
    )
}

/// What the write of an admission may be found to be.
pub open spec fn admission_written(changed: u64, r: Result<(), DispatchError>) -> bool {
    r == (if changed == 1 {
        Ok::<(), DispatchError>(())
    } else {
        Err(DispatchError::Conflict)
    })
}

/// Inserting an operation under the checks made again at commit must insert it.
pub fn admitted_write(changed: u64) -> (r: Result<(), DispatchError>)
    ensures
        admission_written(changed, r),
{
    if changed != 1 {
        return Err(DispatchError::Conflict);
    }
    Ok(())
}

/// What reconciling a cancellation writes.
#[derive(Debug)]
pub struct CancelStep {
    /// Fence the target: it has no committed intent, so nothing can have run.
    pub cancel_target: bool,
    pub done: bool,
    pub result: Option<Json>,
    pub progress: CancelProgress,
}

/// The target is waiting or running without a committed dispatch intent.
pub open spec fn undispatched(target: OperationRow) -> bool {
    &&& (target.status@ == "queued"@ || target.status@ == "running"@)
    &&& target.attempt_count == 0
    &&& target.attempt_receipts@ == Doc::List(Seq::<Doc>::empty())
}

/// The target's status after the step.
pub open spec fn target_status(target: OperationRow) -> Seq<char> {
    if undispatched(target) {
        "cancelled"@
    } else {
        target.status@
    }
}

/// What a claimed cancellation may come to.
pub open spec fn cancel_reconciled(
    claim_live: bool,
    target: Option<&OperationRow>,
    r: Result<CancelStep, DispatchError>,
) -> bool {
    match r {
        Ok(s) => {
            &&& claim_live
            &&& target is Some
            &&& s.cancel_target == undispatched(*target->0)
            &&& s.done == final_status(target_status(*target->0))
            &&& s.progress == (if s.done {
                CancelProgress::Completed
            } else {
                CancelProgress::Pending
            })
            &&& if s.done {
                s.result matches Some(d) && d@ == cancel_result(target->0.id, target_status(*target->0))
            } else {
                s.result is None
            }
        },
        Err(e) => if !claim_live {
            e == DispatchError::LostClaim
        } else {
            e == DispatchError::InvalidData && target is None
        },
    }
}

/// Decide a claimed cancellation. `claim_live` is whether the cancellation is
/// still claimed at its revision; `target` its target, where it is a command of
/// the same project and sandbox.
pub fn reconcile_cancel(claim_live: bool, target: Option<&OperationRow>) -> (r: Result<CancelStep, DispatchError>)
    ensures
        cancel_reconciled(claim_live, target, r),
{
    if !claim_live {
        return Err(DispatchError::LostClaim);
    }
    let target: &OperationRow = match target {
        Some(t) => t,
        None => {
            return Err(DispatchError::InvalidData);
        },
    };
    let empty: bool = match target.attempt_receipts.count() {
        Some(n) => n == 0,
        None => false,
    };
    proof {
        match target.attempt_receipts@ {
            Doc::List(items) => {
                if items.len() == 0 {
                    assert(items =~= Seq::<Doc>::empty());
                }
            },
            _ => {},
        }
    }
    let fenced: bool = (same_text(target.status.as_str(), "queued") || same_text(target.status.as_str(), "running"))
        && target.attempt_count == 0 && empty;
    let status: &str = if fenced {
        "cancelled"
    } else {
        target.status.as_str()
    };
    let done: bool = terminal(status);
    Ok(
        CancelStep {
            cancel_target: fenced,
            done,
            result: if done {
                Some(result(target.id, status))
            } else {
                None
            },
            progress: if done {
                CancelProgress::Completed
            } else {
                CancelProgress::Pending
            },
        },
    )
}

/// A command with a committed intent is never fenced by its cancellation: what it
/// came to is for its own owner to find out.
pub proof fn dispatched_commands_are_not_fenced(target: OperationRow)
    ensures
        target.attempt_count != 0 ==> !undispatched(target) && target_status(target) == target.status@,
        undispatched(target) ==> final_status(target_status(target)),
{
}

/// The keys of a cancellation's result are apart, and so are the statuses.
proof fn lemma_cancel_words()
    ensures
        "target_operation_id"@ != "target_status"@,
        "target_operation_id"@ != "cancelled"@,
        "target_status"@ != "cancelled"@,
        "queued"@ != "running"@,
        "queued"@ != "succeeded"@,
        "queued"@ != "failed"@,
        "queued"@ != "cancelled"@,
        "running"@ != "succeeded"@,
        "running"@ != "failed"@,
        "running"@ != "cancelled"@,
        "succeeded"@ != "failed"@,
        "succeeded"@ != "cancelled"@,
        "failed"@ != "cancelled"@,
{
    reveal_strlit("target_operation_id");
    reveal_strlit("target_status");
    reveal_strlit("cancelled");
    reveal_strlit("queued");
    reveal_strlit("running");
    reveal_strlit("succeeded");
    reveal_strlit("failed");
    assert("target_operation_id"@.len() == 19);
    assert("target_status"@.len() == 13);
    assert("cancelled"@.len() == 9);
    assert("queued"@.len() == 6);
    assert("running"@.len() == 7);
    assert("succeeded"@.len() == 9);
    assert("failed"@.len() == 6);
    assert("queued"@[0] != "failed"@[0]);
    assert("succeeded"@[0] != "cancelled"@[0]);
}

/// What a finished cancellation reports is what became of its target: the target by
/// its public text, the status that the target ended with, and a flag that is true
/// of a cancelled target and false of one that succeeded or failed.
pub proof fn results_report_the_targets_end(target: OperationId, status: Seq<char>)
    ensures
        field(cancel_result(target, status), "target_operation_id"@) == Some(Doc::Text(id_text("op"@, target.value))),
        field(cancel_result(target, status), "target_status"@) == Some(Doc::Text(status)),
        status == "cancelled"@ ==> field(cancel_result(target, status), "cancelled"@) == Some(Doc::Bool(true)),
        status != "cancelled"@ ==> field(cancel_result(target, status), "cancelled"@) == Some(Doc::Bool(false)),
{
    broadcast use lemma_pushed_member;

    lemma_cancel_words();
}

/// A command that has already succeeded, failed or been cancelled is cancelled at
/// once: the cancellation succeeds as it is admitted, on the command's own sandbox,
/// and says that the command was cancelled exactly where it was.
pub proof fn finished_commands_are_answered_at_once(
    rows: &CancelRows,
    digest: &RequestDigest,
    t: OperationRow,
    r: CancelDecision,
)
    requires
        cancel_decided(rows, digest, r),
        rows.authorized == Some(true),
        rows.old is None,
        rows.pending is None,
        rows.target == Some(&t),
        t.kind@ == "execute"@,
        t.status@ == "succeeded"@ || t.status@ == "failed"@ || t.status@ == "cancelled"@,
    ensures
        r matches CancelDecision::Admit(p) && {
            &&& p.done
            &&& p.sandbox_id == t.sandbox_id
            &&& p.status@ == "succeeded"@
            &&& p.phase@ == "cancel_complete"@
            &&& p.result matches Some(d) && {
                &&& field(d@, "target_operation_id"@) == Some(Doc::Text(id_text("op"@, t.id.value)))
                &&& field(d@, "target_status"@) == Some(Doc::Text(t.status@))
                &&& field(d@, "cancelled"@) == Some(Doc::Bool(t.status@ == "cancelled"@))
            }
        },
{
    results_report_the_targets_end(t.id, t.status@);
}

/// A command that still waits or runs on an allocation gets a cancellation that
/// waits for it, with nothing reported yet.
pub proof fn running_commands_get_a_pending_cancellation(
    rows: &CancelRows,
    digest: &RequestDigest,
    t: OperationRow,
    r: CancelDecision,
)
    requires
        cancel_decided(rows, digest, r),
        rows.authorized == Some(true),
        rows.old is None,
        rows.pending is None,
        rows.target == Some(&t),
        t.kind@ == "execute"@,
        t.status@ != "succeeded"@ && t.status@ != "failed"@ && t.status@ != "cancelled"@,
        t.execution_allocation_id is Some,
    ensures
        r matches CancelDecision::Admit(p) && {
            &&& !p.done
            &&& p.sandbox_id == t.sandbox_id
            &&& p.status@ == "queued"@
            &&& p.phase@ == "cancel_requested"@
            &&& p.result is None
        },
{
}

/// A cancel request that cannot be admitted is told why, and the first reason
/// counts: no authority, no such operation, an operation that is no command or that
/// waits without an allocation, or another cancellation that has not finished.
pub proof fn cancel_requests_are_refused_for_their_reason(rows: &CancelRows, digest: &RequestDigest, r: CancelDecision)
    requires
        cancel_decided(rows, digest, r),
    ensures
        rows.authorized != Some(true) <==> r == CancelDecision::Settled(CancelAdmission::Unauthorized),
        rows.authorized == Some(true) && rows.old is None ==> {
            &&& rows.target is None <==> r == CancelDecision::Settled(CancelAdmission::NotFound)
            &&& rows.target matches Some(t) ==> {
                let unfinished = t.status@ != "succeeded"@ && t.status@ != "failed"@ && t.status@ != "cancelled"@;
                let unsupported = t.kind@ != "execute"@ || (unfinished && t.execution_allocation_id is None);
                &&& unsupported <==> r == CancelDecision::Settled(CancelAdmission::Unsupported)
                &&& !unsupported && rows.pending is Some ==> r == CancelDecision::Settled(
                    CancelAdmission::Busy(rows.pending->0),
                )
            }
        },
{
}

/// A key that was used before answers with the operation it was first used for,
/// while that operation's response is kept; with another request, or one of another
/// normalization, it conflicts.
pub proof fn cancel_retries_name_the_first_operation(
    rows: &CancelRows,
    digest: &RequestDigest,
    row: RetryRow,
    r: CancelDecision,
)
    requires
        cancel_decided(rows, digest, r),
        rows.authorized == Some(true),
        rows.old == Some(&row),
    ensures
        row.request_digest@ != digest.bytes@ || row.digest_version != 1 <==> r == CancelDecision::Settled(
            CancelAdmission::DigestConflict,
        ),
        row.request_digest@ == digest.bytes@ && row.digest_version == 1 && row.response_expired
            ==> r == CancelDecision::Settled(CancelAdmission::ResponseExpired(row.id)),
        row.request_digest@ == digest.bytes@ && row.digest_version == 1 && !row.response_expired ==> (
        r matches CancelDecision::Settled(CancelAdmission::Accepted { operation_id, sandbox_id, status })
            && operation_id == row.id && sandbox_id == row.sandbox_id && status@ == row.status@),
{
}

/// A claimed cancellation whose target was never dispatched fences the target and
/// finishes, reporting it cancelled.
pub proof fn undispatched_targets_end_cancelled(t: OperationRow, r: Result<CancelStep, DispatchError>)
    requires
        cancel_reconciled(true, Some(&t), r),
        t.status@ == "queued"@ || t.status@ == "running"@,
        t.attempt_count == 0,
        t.attempt_receipts@ == Doc::List(Seq::<Doc>::empty()),
    ensures
        r matches Ok(s) && {
            &&& s.cancel_target
            &&& s.done
            &&& s.progress == CancelProgress::Completed
            &&& s.result matches Some(d) && {
                &&& field(d@, "target_operation_id"@) == Some(Doc::Text(id_text("op"@, t.id.value)))
                &&& field(d@, "target_status"@) == Some(Doc::Text("cancelled"@))
                &&& field(d@, "cancelled"@) == Some(Doc::Bool(true))
            }
        },
{
    results_report_the_targets_end(t.id, "cancelled"@);
}

/// A claimed cancellation whose target has finished reports how, and leaves the
/// target as it is.
pub proof fn finished_targets_end_their_cancellation(t: OperationRow, r: Result<CancelStep, DispatchError>)
    requires
        cancel_reconciled(true, Some(&t), r),
        t.status@ == "succeeded"@ || t.status@ == "failed"@ || t.status@ == "cancelled"@,
    ensures
        r matches Ok(s) && {
            &&& !s.cancel_target
            &&& s.done
            &&& s.progress == CancelProgress::Completed
            &&& s.result matches Some(d) && {
                &&& field(d@, "target_operation_id"@) == Some(Doc::Text(id_text("op"@, t.id.value)))
                &&& field(d@, "target_status"@) == Some(Doc::Text(t.status@))
                &&& field(d@, "cancelled"@) == Some(Doc::Bool(t.status@ == "cancelled"@))
            }
        },
{
    lemma_cancel_words();
    results_report_the_targets_end(t.id, t.status@);
}

/// A claimed cancellation whose target was dispatched and has not finished waits:
/// it fences nothing and reports nothing.
pub proof fn dispatched_targets_are_waited_for(t: OperationRow, r: Result<CancelStep, DispatchError>)
    requires
        cancel_reconciled(true, Some(&t), r),
        t.status@ != "succeeded"@ && t.status@ != "failed"@ && t.status@ != "cancelled"@,
        t.attempt_count != 0 || t.attempt_receipts@ != Doc::List(Seq::<Doc>::empty()),
    ensures
        r matches Ok(s) && {
            &&& !s.cancel_target
            &&& !s.done
            &&& s.progress == CancelProgress::Pending
            &&& s.result is None
        },
{
}

/// A cancellation that is no longer claimed, or whose target is missing, writes
/// nothing.
pub proof fn unclaimed_cancellations_write_nothing(
    claim_live: bool,
    target: Option<&OperationRow>,
    r: Result<CancelStep, DispatchError>,
)
    requires
        cancel_reconciled(claim_live, target, r),
    ensures
        !claim_live <==> r == Err::<CancelStep, DispatchError>(DispatchError::LostClaim),
        claim_live && target is None <==> r == Err::<CancelStep, DispatchError>(DispatchError::InvalidData),
        claim_live && target is Some <==> r is Ok,
{
}

} // verus!
