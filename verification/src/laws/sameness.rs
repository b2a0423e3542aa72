//! What it takes for two values to be the same: nothing that they say may differ.
use crate::allocation_retirement::{intent_json, request_json, same_intent, same_request, Intent, Request};
use crate::bootstrap::{bootstrap_json, same_bootstrap, Bootstrap};
use crate::file_sources::{
    same_source_plan, source_key_text, source_plan_digest, source_plan_json, SourcePlan,
};
use crate::file_wire::same_file_receipt;
use crate::files::{same_upload, upload_json, upload_preimage, Receipt as FileReceipt, Upload};
use crate::guest as wire;
use crate::guest_model::{same_context, Context, Receipt as CommandReceipt};
use crate::guest_wire::same_receipt;
use crate::history::{same_barrier, Barrier};
use crate::output::{
    object_key_text, owner_json, plan_digest, plan_json, same_owner, same_plan, same_plans, same_ref, same_refs,
    same_ticket, OutputOwner, OutputPlan, OutputPlans, OutputRef, OutputRefs, OutputTicket,
};
use crate::supervisor::{
    same_download, same_history_request, same_lease_owner, same_ownership, same_released_request, FileDownloadHandle,
    HistoryRequest, LeaseOwnership, Ownership, ReleasedHistoryRequest,
};
use vstd::prelude::*;

verus! {

/// Two owners of output are the same exactly where nothing in them differs but where the
/// text of their boot is kept.
pub proof fn same_owners_differ_in_nothing(a: OutputOwner, b: OutputOwner)
    ensures
        same_owner(a, b) <==> a == (OutputOwner { boot_id: a.boot_id, ..b })
            && a.boot_id@ == b.boot_id@,
{
}

/// Two tickets are the same exactly where nothing in them differs but where the text of
/// their boot is kept.
pub proof fn same_tickets_differ_in_nothing(a: OutputTicket, b: OutputTicket)
    ensures
        same_ticket(a, b) <==> a == (OutputTicket { owner: a.owner, ..b })
            && a.owner == (OutputOwner { boot_id: a.owner.boot_id, ..b.owner })
            && a.owner.boot_id@ == b.owner.boot_id@,
{
}

/// Two plans are the same exactly where nothing in them differs but where their texts are
/// kept.
pub proof fn same_plans_differ_in_nothing(a: OutputPlan, b: OutputPlan)
    ensures
        same_plan(a, b) <==> a == (OutputPlan { owner: a.owner, sha256: a.sha256, ..b })
            && a.sha256@ == b.sha256@
            && a.owner == (OutputOwner { boot_id: a.owner.boot_id, ..b.owner })
            && a.owner.boot_id@ == b.owner.boot_id@,
{
}

/// Plans that are the same are written the same way and stored under the same key.
pub proof fn same_plans_are_written_alike(a: OutputPlan, b: OutputPlan)
    requires
        same_plan(a, b),
    ensures
        plan_json(a) == plan_json(b),
        object_key_text(a) == object_key_text(b),
        plan_digest(a) == plan_digest(b),
{
    reveal(plan_json);
    reveal(owner_json);
    reveal(object_key_text);
}

/// References are the same exactly where both plans, both tags and both versions are.
pub proof fn same_references_are_of_the_same_objects(a: OutputRef, b: OutputRef)
    ensures
        same_ref(a, b) <==> same_plan(a.plan, b.plan) && a.etag@ == b.etag@ && a.object_version is Some
            == b.object_version is Some && (a.object_version is Some ==> a.object_version->0@ == b.object_version->0@),
{
}

/// Pairs are the same exactly where each stream is the same as its own counterpart.
pub proof fn same_pairs_agree_stream_by_stream(a: OutputPlans, b: OutputPlans, p: OutputRefs, q: OutputRefs)
    ensures
        same_plans(a, b) <==> same_plan(a.stdout, b.stdout) && same_plan(a.stderr, b.stderr),
        same_refs(p, q) <==> same_ref(p.stdout, q.stdout) && same_ref(p.stderr, q.stderr),
{
}

/// Two uploads are the same exactly where nothing in them differs but where their path and
/// digest are kept.
pub proof fn same_uploads_differ_in_nothing(a: Upload, b: Upload)
    ensures
        same_upload(a, b) <==> a == (Upload { path: a.path, sha256: a.sha256, ..b })
            && a.path@ == b.path@
            && a.sha256@ == b.sha256@,
{
}

/// Uploads that are the same are written the same way, and so are plans to store them.
pub proof fn same_uploads_are_written_alike(a: Upload, b: Upload, p: SourcePlan, q: SourcePlan)
    requires
        same_upload(a, b),
        same_source_plan(p, q),
    ensures
        upload_json(a) == upload_json(b),
        upload_preimage(a) == upload_preimage(b),
        source_plan_json(p) == source_plan_json(q),
        source_key_text(p) == source_key_text(q),
        source_plan_digest(p) == source_plan_digest(q),
{
    reveal(upload_json);
    reveal(source_plan_json);
    reveal(source_key_text);
}

/// Two bootstraps are the same exactly where nothing in them differs but where their
/// credentials and pin are kept.
pub proof fn same_bootstraps_differ_in_nothing(a: Bootstrap, b: Bootstrap)
    ensures
        same_bootstrap(a, b) <==> a == (Bootstrap { ca_pem: a.ca_pem, guest_cert_pem: a.guest_cert_pem, guest_key_pem: a.guest_key_pem, host_pin: a.host_pin, ..b })
            && a.ca_pem@ == b.ca_pem@
            && a.guest_cert_pem@ == b.guest_cert_pem@
            && a.guest_key_pem@ == b.guest_key_pem@
            && a.host_pin@ == b.host_pin@,
{
}

/// Bootstraps that are the same are written the same way.
pub proof fn same_bootstraps_are_written_alike(a: Bootstrap, b: Bootstrap)
    requires
        same_bootstrap(a, b),
    ensures
        bootstrap_json(a) == bootstrap_json(b),
{
    reveal(bootstrap_json);
}

/// Two intents are the same exactly where nothing in them differs but where the digest of
/// their release is kept.
pub proof fn same_intents_differ_in_nothing(a: Intent, b: Intent)
    ensures
        same_intent(a, b) <==> a == (Intent { release_evidence_sha256: a.release_evidence_sha256, ..b })
            && a.release_evidence_sha256@ == b.release_evidence_sha256@,
{
}

/// Two requests are the same exactly where their intents are and nothing else in them
/// differs.
pub proof fn same_requests_differ_in_nothing(a: Request, b: Request)
    ensures
        same_request(a, b) <==> a == (Request { intent: a.intent, ..b })
            && same_intent(a.intent, b.intent),
{
}

/// Requests that are the same are written the same way, and so are their intents.
pub proof fn same_requests_are_written_alike(a: Request, b: Request)
    requires
        same_request(a, b),
    ensures
        intent_json(a.intent) == intent_json(b.intent),
        request_json(a) == request_json(b),
{
    reveal(intent_json);
    reveal(request_json);
}

/// Two boots are the same exactly where they are of one allocation and generation and
/// their names agree.
pub proof fn same_boots_differ_in_nothing(a: Context, b: Context)
    ensures
        same_context(a, b) <==> a == (Context { boot_id: a.boot_id, ..b })
            && a.boot_id@ == b.boot_id@,
{
}

/// Two barriers are the same exactly where their boots are and nothing else in them
/// differs.
pub proof fn same_barriers_differ_in_nothing(a: Barrier, b: Barrier)
    ensures
        same_barrier(a, b) <==> a == (Barrier { context: a.context, ..b })
            && same_context(a.context, b.context),
{
}

/// Two receipts of a transfer are the same exactly where their boots, uploads and digests
/// are and nothing else in them differs.
pub proof fn same_transfers_differ_in_nothing(a: FileReceipt, b: FileReceipt)
    ensures
        same_file_receipt(a, b) <==> a == (FileReceipt { context: a.context, upload: a.upload, digest: a.digest, ..b })
            && a.digest@ == b.digest@
            && same_context(a.context, b.context)
            && same_upload(a.upload, b.upload),
{
}

/// Two receipts of a command are the same exactly where their boots, digests and reasons
/// are and nothing else in them differs.
pub proof fn same_receipts_differ_in_nothing(a: CommandReceipt, b: CommandReceipt)
    ensures
        same_receipt(a, b) <==> a == (CommandReceipt { context: a.context, digest: a.digest, reason: a.reason, ..b })
            && a.digest@ == b.digest@
            && same_context(a.context, b.context)
            && a.reason is Some == b.reason is Some
            && (a.reason is Some ==> a.reason->0@ == b.reason->0@),
{
}

/// Two boots on the wire are the same exactly where their texts agree and they are of one
/// generation.
pub proof fn same_wire_boots_differ_in_nothing(a: wire::Context, b: wire::Context)
    ensures
        wire::same_context(a, b) <==> a == (wire::Context { allocation_id: a.allocation_id, boot_id: a.boot_id, ..b })
            && a.allocation_id@ == b.allocation_id@
            && a.boot_id@ == b.boot_id@,
{
}

/// Two handles of a capture are the same exactly where their names and digests agree.
pub proof fn same_handles_differ_in_nothing(a: wire::FileHandle, b: wire::FileHandle)
    ensures
        wire::same_handle(a, b) <==> a == (wire::FileHandle { capture_id: a.capture_id, sha256: a.sha256, ..b })
            && a.capture_id@ == b.capture_id@
            && a.sha256@ == b.sha256@,
{
}

/// Two captures are the same exactly where nothing in them differs but where their texts
/// and digests are kept.
pub proof fn same_captures_differ_in_nothing(a: wire::FileCapture, b: wire::FileCapture)
    ensures
        wire::same_capture(a, b) <==> a == (wire::FileCapture { capture_id: a.capture_id, path: a.path, sha256: a.sha256, ..b })
            && a.capture_id@ == b.capture_id@
            && a.path@ == b.path@
            && a.sha256@ == b.sha256@,
{
}

/// Two chunks are the same exactly where their handles and bytes agree and nothing else in
/// them differs.
pub proof fn same_chunks_differ_in_nothing(a: wire::FileChunk, b: wire::FileChunk)
    ensures
        wire::same_chunk(a, b) <==> a == (wire::FileChunk { handle: a.handle, data: a.data, ..b })
            && a.data@ == b.data@
            && (match (a.handle, b.handle) {
                (Some(x), Some(y)) => wire::same_handle(x, y),
                (None, None) => true,
                _ => false,
            }),
{
}

/// Two downloads are the same exactly where their names, boots and captures agree and
/// nothing else in them differs.
pub proof fn same_downloads_differ_in_nothing(a: FileDownloadHandle, b: FileDownloadHandle)
    ensures
        same_download(a, b) <==> a == (FileDownloadHandle { id: a.id, context: a.context, capture: a.capture, ..b })
            && a.id@ == b.id@
            && (match (a.context, b.context) {
                (Some(x), Some(y)) => wire::same_context(x, y),
                (None, None) => true,
                _ => false,
            })
            && (match (a.capture, b.capture) {
                (Some(x), Some(y)) => wire::same_capture(x, y),
                (None, None) => true,
                _ => false,
            }),
{
}

/// Two owners of an operation are the same exactly where nothing in them differs but where
/// their identities are kept.
pub proof fn same_ownerships_differ_in_nothing(a: Ownership, b: Ownership)
    ensures
        same_ownership(a, b) <==> a == (Ownership { host_id: a.host_id, project_id: a.project_id, sandbox_id: a.sandbox_id, allocation_id: a.allocation_id, operation_id: a.operation_id, ..b })
            && a.host_id@ == b.host_id@
            && a.project_id@ == b.project_id@
            && a.sandbox_id@ == b.sandbox_id@
            && a.allocation_id@ == b.allocation_id@
            && a.operation_id@ == b.operation_id@,
{
}

/// Two owners of a lease are the same exactly where nothing in them differs but where
/// their identities are kept.
pub proof fn same_lease_owners_differ_in_nothing(a: LeaseOwnership, b: LeaseOwnership)
    ensures
        same_lease_owner(a, b) <==> a == (LeaseOwnership { host_id: a.host_id, project_id: a.project_id, sandbox_id: a.sandbox_id, allocation_id: a.allocation_id, ..b })
            && a.host_id@ == b.host_id@
            && a.project_id@ == b.project_id@
            && a.sandbox_id@ == b.sandbox_id@
            && a.allocation_id@ == b.allocation_id@,
{
}

/// Two requests to retire history are the same exactly where both their owners and both
/// their barriers are.
pub proof fn same_history_requests_differ_in_nothing(a: HistoryRequest, b: HistoryRequest)
    ensures
        same_history_request(a, b) <==> a.ownership is Some == b.ownership is Some && a.barrier is Some
            == b.barrier is Some && (a.ownership is Some ==> same_lease_owner(a.ownership->0, b.ownership->0)) && (
        a.barrier is Some ==> same_barrier(a.barrier->0, b.barrier->0)),
{
}

/// Two requests to retire released history are the same exactly where their owners and
/// their operations are and nothing else in them differs.
pub proof fn same_released_requests_differ_in_nothing(a: ReleasedHistoryRequest, b: ReleasedHistoryRequest)
    ensures
        same_released_request(a, b) <==> a == (ReleasedHistoryRequest {
            ownership: a.ownership,
            through: a.through,
            ..b
        }) && a.through@ == b.through@ && a.ownership is Some == b.ownership is Some && (a.ownership is Some
            ==> same_lease_owner(a.ownership->0, b.ownership->0)),
{
}

} // verus!
