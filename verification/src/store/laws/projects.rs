//! Projects and their tokens: how they are read, and what they begin with.
use crate::canonical::Json;
use crate::document::{field, lemma_pushed_member, number};
use crate::store::admission::StoreError;
use crate::store::projects::{token_read, ProjectStatus, TokenRecord, TokenRow};
use crate::store::provision::{project_provisioned, white_space, ProjectProvision};
use crate::text::{byte_len, has_control};
use vstd::prelude::*;

verus! {

/// The states of a project are apart, and so are the names of its limits.
proof fn lemma_project_words()
    ensures
        "active"@ != "suspended"@,
        "active"@ != "deleting"@,
        "suspended"@ != "deleting"@,
        "sandboxes"@ != "vcpu"@,
        "sandboxes"@ != "memory_mib"@,
        "sandboxes"@ != "disk_mib"@,
        "vcpu"@ != "memory_mib"@,
        "vcpu"@ != "disk_mib"@,
        "memory_mib"@ != "disk_mib"@,
{
    reveal_strlit("active");
    reveal_strlit("suspended");
    reveal_strlit("deleting");
    reveal_strlit("sandboxes");
    reveal_strlit("vcpu");
    reveal_strlit("memory_mib");
    reveal_strlit("disk_mib");
    assert("active"@.len() == 6);
    assert("suspended"@.len() == 9);
    assert("deleting"@.len() == 8);
    assert("sandboxes"@.len() == 9);
    assert("vcpu"@.len() == 4);
    assert("memory_mib"@.len() == 10);
    assert("disk_mib"@.len() == 8);
}

/// A stored token is read as it is stored: its project with the project's state, its
/// key, its hash, its end and its revocation; a state that is none of the three, or a
/// hash that is not of 32 bytes, is no token.
pub proof fn tokens_are_read_as_stored(row: TokenRow, r: Result<TokenRecord, StoreError>)
    requires
        token_read(row, r),
    ensures
        ({
            let known = row.project_status@ == "active"@ || row.project_status@ == "suspended"@ || row.project_status@
                == "deleting"@;
            &&& r is Ok ==> known && row.hash@.len() == 32
            &&& !known ==> r is Err
            &&& known && row.hash@.len() == 32 ==> r is Ok
        }),
        r matches Ok(t) ==> {
            &&& t.project_id == row.project_id
            &&& row.project_status@ == "active"@ <==> t.project_status == ProjectStatus::Active
            &&& row.project_status@ == "suspended"@ <==> t.project_status == ProjectStatus::Suspended
            &&& row.project_status@ == "deleting"@ <==> t.project_status == ProjectStatus::Deleting
            &&& t.key_id@ == row.key_id@
            &&& t.hash.bytes@ == row.hash@
            &&& t.expires_at == row.expires_at
            &&& t.revoked_at == row.revoked_at
        },
{
    lemma_project_words();
}

/// A project is provisioned exactly where its name is not blank, is of at most two
/// hundred bytes and holds no control characters, and its token ends after it begins;
/// it begins with the default limits, each under its own name.
pub proof fn projects_begin_with_the_default_limits(p: &ProjectProvision, r: Result<Json, StoreError>)
    requires
        project_provisioned(p, r),
    ensures
        r is Ok <==> {
            &&& exists|i: int| 0 <= i < p.name@.len() && !white_space(#[trigger] p.name@[i])
            &&& byte_len(p.name@) <= 200
            &&& !has_control(p.name@)
            &&& p.created_at < p.expires_at
        },
        r matches Ok(limits) ==> {
            &&& field(limits@, "sandboxes"@) == Some(number(25))
            &&& field(limits@, "vcpu"@) == Some(number(100))
            &&& field(limits@, "memory_mib"@) == Some(number(204800))
            &&& field(limits@, "disk_mib"@) == Some(number(1638400))
        },
{
    broadcast use lemma_pushed_member;

    lemma_project_words();
}

} // verus!
