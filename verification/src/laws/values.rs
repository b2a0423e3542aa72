//! What the checks of kept values accept, and no more.
use crate::allocation_authority::permit_valid;
use crate::allocation_retirement::{intent_valid, request_validity, DomainClosure, Error as RetirementError, Intent, Request};
use crate::ids::is_v7;
use crate::live_output::{live_scope_valid, LiveOutputScope};
use crate::output::{
    owner_valid, plan_valid, plans_valid, refs_valid, ticket_plans_valid, ticket_valid, OutputName, OutputOwner,
    OutputPlan, OutputPlans, OutputRef, OutputRefs, OutputTicket,
};
use crate::resources::size_supported;
use crate::store::clock::{millis_of, stamp_of, whole_millis};
use crate::text::{byte_len, has_control, lower_hex, lower_hex_text};
use vstd::prelude::*;

verus! {

/// An owner is usable: of a real generation and epoch, and a boot whose name is there,
/// of at most 64 bytes and without control characters.
pub open spec fn usable(o: OutputOwner) -> bool {
    o.generation >= 1 && o.host_epoch >= 1 && o.boot_id@.len() >= 1 && byte_len(o.boot_id@) <= 64 && !has_control(
        o.boot_id@,
    )
}

/// An owner is accepted exactly where it is usable.
pub proof fn owners_are_usable(o: OutputOwner)
    ensures
        owner_valid(o) <==> usable(o),
{
}

/// A ticket is accepted exactly where its owner is usable, its limit is one byte to ten
/// MiB, and its retention begins after the epoch, lasts, and is not deleted before it
/// ends.
pub proof fn tickets_are_bounded(t: OutputTicket)
    ensures
        ticket_valid(t) <==> t.version == 1 && usable(t.owner) && 1 <= t.output_limit <= 10485760 && 0
            < t.created_unix_ms < t.expires_unix_ms && t.expires_unix_ms <= t.delete_after_unix_ms,
{
}

/// A plan is accepted exactly where its owner is usable, its object is of at most ten
/// MiB and holds no more than was seen, it is truncated exactly where it holds less, its
/// digest is of 64 lower-case digits, and its retention is in order.
pub proof fn plans_hold_no_more_than_was_seen(p: OutputPlan)
    ensures
        plan_valid(p) <==> {
            &&& p.version == 1
            &&& usable(p.owner)
            &&& p.size <= 10485760
            &&& p.size <= p.seen
            &&& p.truncated <==> p.size < p.seen
            &&& p.sha256@.len() == 64
            &&& forall|i: int| 0 <= i < 64 ==> (('0' <= #[trigger] p.sha256@[i] <= '9') || ('a' <= p.sha256@[i]
                <= 'f'))
            &&& 0 < p.created_unix_ms < p.expires_unix_ms
            &&& p.expires_unix_ms <= p.delete_after_unix_ms
        },
{
    if p.sha256@.len() == 64 && lower_hex_text(p.sha256@) {
        assert forall|i: int| 0 <= i < 64 implies (('0' <= #[trigger] p.sha256@[i] <= '9') || ('a' <= p.sha256@[i]
            <= 'f')) by {
            assert(lower_hex(p.sha256@[i]));
        }
    }
}

/// A pair of plans is accepted exactly where each is, the first is of the command's
/// output and the second of its errors, both are of the owner and of one attempt and
/// retention, and together they stay within the limit.
pub proof fn pairs_are_of_one_command(plans: OutputPlans, owner: OutputOwner, output_limit: u64)
    ensures
        plans_valid(plans, owner, output_limit) <==> {
            let a = plans.stdout;
            let b = plans.stderr;
            &&& plan_valid(a) && plan_valid(b)
            &&& a.name == OutputName::Stdout && b.name == OutputName::Stderr
            &&& of_owner(a, owner) && of_owner(b, owner)
            &&& a.upload_attempt == b.upload_attempt
            &&& a.created_unix_ms == b.created_unix_ms && a.expires_unix_ms == b.expires_unix_ms && a.delete_after_unix_ms
                == b.delete_after_unix_ms
            &&& 1 <= output_limit <= 10485760
            &&& a.size + b.size <= output_limit
        },
{
}

/// The plan is this owner's.
pub open spec fn of_owner(p: OutputPlan, o: OutputOwner) -> bool {
    p.owner.project_id == o.project_id && p.owner.sandbox_id == o.sandbox_id && p.owner.operation_id == o.operation_id
        && p.owner.allocation_id == o.allocation_id && p.owner.generation == o.generation && p.owner.host_id == o.host_id
        && p.owner.host_epoch == o.host_epoch && p.owner.boot_id@ == o.boot_id@
}

/// The plans are a ticket's exactly where both are accepted and of its owner and limit,
/// attempt and retention.
pub proof fn plans_are_of_their_ticket(t: OutputTicket, plans: OutputPlans)
    ensures
        ticket_plans_valid(t, plans) <==> ticket_valid(t) && plans_valid(plans, t.owner, t.output_limit)
            && plans.stdout.upload_attempt == t.upload_attempt && plans.stdout.created_unix_ms == t.created_unix_ms
            && plans.stdout.expires_unix_ms == t.expires_unix_ms && plans.stdout.delete_after_unix_ms
            == t.delete_after_unix_ms,
{
}

/// References are accepted exactly where their plans are a pair and each object is
/// named: an entity tag, and a version where there is one, of at most 1024 bytes.
pub proof fn references_are_named(refs: OutputRefs, owner: OutputOwner, output_limit: u64)
    ensures
        refs_valid(refs, owner, output_limit) <==> {
            &&& plans_valid(
                OutputPlans { stdout: refs.stdout.plan, stderr: refs.stderr.plan },
                owner,
                output_limit,
            )
            &&& named(refs.stdout) && named(refs.stderr)
        },
{
}

/// The object has an entity tag, and a version where it is versioned, each present, of
/// at most 1024 bytes and without control characters.
pub open spec fn named(r: OutputRef) -> bool {
    &&& r.etag@.len() >= 1 && byte_len(r.etag@) <= 1024 && !has_control(r.etag@)
    &&& r.object_version matches Some(v) ==> v@.len() >= 1 && byte_len(v@) <= 1024 && !has_control(v@)
}

/// A live scope is accepted exactly where its owner is usable, it has a deadline, and
/// its limit is one byte to ten MiB.
pub proof fn live_scopes_are_bounded(s: LiveOutputScope)
    ensures
        live_scope_valid(s) <==> s.version == 1 && usable(s.owner) && s.deadline_unix_ms >= 1 && 1 <= s.output_limit
            <= 10485760,
{
}

/// A size is offered from one to four virtual CPUs, 128 MiB to 8 GiB of memory and 64
/// MiB to 64 GiB of disk.
pub proof fn sizes_are_bounded(vcpu: int, memory_mib: int, disk_mib: int)
    ensures
        size_supported(vcpu, memory_mib, disk_mib) <==> 1 <= vcpu <= 4 && 128 <= memory_mib <= 8192 && 64 <= disk_mib
            <= 65536,
{
}

/// A stamp is told in whole milliseconds, rounded towards the epoch, and a millisecond
/// is a million nanoseconds.
pub proof fn stamps_are_told_in_milliseconds(nanos: i128, millis: i64)
    ensures
        nanos >= 0 ==> whole_millis(nanos as int) * 1000000 <= nanos < whole_millis(nanos as int) * 1000000 + 1000000,
        nanos <= 0 ==> whole_millis(nanos as int) * 1000000 - 1000000 < nanos <= whole_millis(nanos as int) * 1000000,
        millis_of(nanos) matches Some(m) ==> m == whole_millis(nanos as int),
        stamp_of(millis) matches Some(t) ==> t == millis * 1000000 && millis_of(t) == Some(millis),
        0 <= millis <= 253402300799999 ==> stamp_of(millis) is Some,
{
}

/// An intent to retire is accepted exactly where its permit is real, its identity and
/// those that close its domains are real and apart from the create's, and it holds a
/// digest of 64 lower-case digits.
pub proof fn intents_are_real(i: Intent)
    ensures
        intent_valid(i) <==> {
            let create = i.permit.create_operation;
            &&& i.version == 1
            &&& is_v7(i.retirement.value)
            &&& i.retirement != create
            &&& permit_valid(i.permit)
            &&& i.release_evidence_sha256@.len() == 64
            &&& lower_hex_text(i.release_evidence_sha256@)
            &&& i.commands matches DomainClosure::Retired { through } ==> is_v7(through.value) && through != i.retirement
                && through != create
            &&& i.files matches DomainClosure::Retired { through } ==> is_v7(through.value) && through != i.retirement
                && through != create
        },
{
}

/// A request to retire is live exactly where both intents are real and the same, and
/// its claim is: at this epoch, at least at this revision, and not yet over.
pub proof fn retirement_requests_are_live(
    q: Request,
    kept: Intent,
    epoch: i64,
    minimum_revision: i64,
    now: i64,
)
    ensures
        request_validity(q, kept, epoch, minimum_revision, now) is Ok <==> {
            &&& intent_valid(q.intent)
            &&& intent_valid(kept)
            &&& q.intent.retirement == kept.retirement && q.intent.permit == kept.permit && q.intent.commands
                == kept.commands && q.intent.files == kept.files && q.intent.release_evidence_sha256@
                == kept.release_evidence_sha256@ && q.intent.simulated == kept.simulated
            &&& minimum_revision >= 1
            &&& q.revision >= minimum_revision
            &&& now >= 1
            &&& q.expires_unix_ms > now
            &&& q.reporting_epoch == epoch
            &&& q.reporting_epoch >= q.intent.permit.original_epoch
        },
        !intent_valid(q.intent) || !intent_valid(kept) <==> request_validity(q, kept, epoch, minimum_revision, now)
            == Err::<(), RetirementError>(RetirementError::Invalid),
        intent_valid(q.intent) && intent_valid(kept) && (q.intent.retirement != kept.retirement || q.intent.permit
            != kept.permit || q.intent.commands != kept.commands || q.intent.files != kept.files
            || q.intent.release_evidence_sha256@ != kept.release_evidence_sha256@ || q.intent.simulated
            != kept.simulated) <==> request_validity(q, kept, epoch, minimum_revision, now) == Err::<
            (),
            RetirementError,
        >(RetirementError::Scope),
{
}

} // verus!
