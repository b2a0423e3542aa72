//! Admitting a create: the image decides of new work, the key of work it knows.
use crate::document::{field, integer_of, lemma_integer_of, lemma_pushed_member};
use crate::idempotency::RequestDigest;
use crate::ids::{OperationId, SandboxId};
use crate::images::ImageAllowlist;
use crate::store::admission::{
    create_admitted, create_looked_up, create_resolved, resources_doc, Admission, CreateSandbox, Resources, StoreError,
};
use crate::store::rows::RetryRow;
use vstd::prelude::*;

verus! {

/// The keys of a size are apart.
proof fn lemma_size_words()
    ensures
        "vcpu"@ != "memory_mib"@,
        "vcpu"@ != "disk_mib"@,
        "memory_mib"@ != "disk_mib"@,
{
    reveal_strlit("vcpu");
    reveal_strlit("memory_mib");
    reveal_strlit("disk_mib");
    assert("vcpu"@.len() == 4);
    assert("memory_mib"@.len() == 10);
    assert("disk_mib"@.len() == 8);
}

/// A create request whose key was never used is admitted exactly where its image is
/// allowed, under the identities made for it.
pub proof fn new_creates_are_admitted_by_their_image(
    request: &CreateSandbox,
    images: &ImageAllowlist,
    sandbox_id: SandboxId,
    operation_id: OperationId,
    r: Result<Admission, StoreError>,
)
    requires
        create_admitted(None, request, images, sandbox_id, operation_id, r),
    ensures
        images@.contains(request.image_digest@) <==> r == Ok::<Admission, StoreError>(
            Admission::Admitted { sandbox_id, operation_id },
        ),
        !images@.contains(request.image_digest@) <==> r == Ok::<Admission, StoreError>(Admission::ImageDenied),
{
}

/// A create request whose key was used before is answered from that use, whatever
/// the image policy says today: with the first operation and its status where the
/// request is the same, and with a conflict that names it where it is another.
pub proof fn create_retries_name_the_first_operation(
    row: RetryRow,
    request: &CreateSandbox,
    images: &ImageAllowlist,
    sandbox_id: SandboxId,
    operation_id: OperationId,
    r: Result<Admission, StoreError>,
)
    requires
        create_admitted(Some(&row), request, images, sandbox_id, operation_id, r),
        row.request_digest@.len() == 32,
    ensures
        row.request_digest@ == request.request_digest.bytes@ ==> (r matches Ok(
            Admission::Existing { sandbox_id: s, operation_id: o, status },
        ) && s == row.sandbox_id && o == row.id && status@ == row.status@),
        row.request_digest@ != request.request_digest.bytes@ <==> r == Ok::<Admission, StoreError>(
            Admission::DigestConflict { operation_id: row.id },
        ),
{
}

/// Looking a key up, admitting a request under it and resolving it after an insert
/// found it taken all say the same.
pub proof fn a_key_answers_alike_however_it_is_met(
    row: RetryRow,
    request: &CreateSandbox,
    images: &ImageAllowlist,
    sandbox_id: SandboxId,
    operation_id: OperationId,
    found: Result<Option<Admission>, StoreError>,
    admitted: Result<Admission, StoreError>,
    resolved: Result<Admission, StoreError>,
)
    requires
        create_looked_up(Some(&row), &request.request_digest, found),
        create_admitted(Some(&row), request, images, sandbox_id, operation_id, admitted),
        create_resolved(Some(&row), &request.request_digest, resolved),
    ensures
        row.request_digest@.len() != 32 <==> found is Err,
        row.request_digest@.len() != 32 <==> admitted is Err,
        row.request_digest@.len() != 32 <==> resolved is Err,
        found matches Ok(f) ==> {
            &&& (f matches Some(Admission::DigestConflict { .. })) <==> row.request_digest@
                != request.request_digest.bytes@
            &&& (f matches Some(Admission::Existing { .. })) <==> row.request_digest@
                == request.request_digest.bytes@
            &&& (admitted matches Ok(Admission::Existing { .. })) <==> row.request_digest@
                == request.request_digest.bytes@
            &&& (resolved matches Ok(Admission::Existing { .. })) <==> row.request_digest@
                == request.request_digest.bytes@
        },
        resolved matches Ok(Admission::Existing { operation_id: o, sandbox_id: s, status }) ==> o == row.id && s
            == row.sandbox_id && status@ == row.status@,
        found matches Ok(Some(Admission::Existing { operation_id: o, sandbox_id: s, status })) ==> o == row.id && s
            == row.sandbox_id && status@ == row.status@,
{
}

/// A key that no row holds is found by no look-up, and cannot be resolved.
pub proof fn unused_keys_are_found_by_nobody(
    digest: &RequestDigest,
    found: Result<Option<Admission>, StoreError>,
    resolved: Result<Admission, StoreError>,
)
    requires
        create_looked_up(None, digest, found),
        create_resolved(None, digest, resolved),
    ensures
        found == Ok::<Option<Admission>, StoreError>(None),
        resolved is Err,
{
}

/// The size that is kept with a sandbox is the size that was asked for, and it reads
/// back as that size.
pub proof fn kept_sizes_read_back(r: Resources)
    ensures
        integer_of(field(resources_doc(r), "vcpu"@)) == Some(r.vcpu as i64),
        integer_of(field(resources_doc(r), "memory_mib"@)) == Some(r.memory_mib),
        integer_of(field(resources_doc(r), "disk_mib"@)) == Some(r.disk_mib),
{
    broadcast use lemma_pushed_member;

    lemma_size_words();
    lemma_integer_of(r.vcpu as i64);
    lemma_integer_of(r.memory_mib);
    lemma_integer_of(r.disk_mib);
}

} // verus!
