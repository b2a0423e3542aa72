//! Offline operator provisioning. A credential file is durable before this insert is attempted.
use crate::canonical::Json;
use crate::document::{json_integer, number, Doc, Members};
use crate::ids::ProjectId;
use crate::store::admission::{corrupt, StoreError};
use crate::text::{byte_len, byte_length, contains_control, has_control};
use crate::token::{TokenHash, TokenKeyId};
use vstd::prelude::*;
use vstd::string::*;

verus! {

/// All values are retained by the operator so a lost commit acknowledgement can be reconciled.
pub struct ProjectProvision {
    pub project: ProjectId,
    pub name: String,
    pub key: TokenKeyId,
    pub hash: TokenHash,
    pub created_at: i128,
    pub expires_at: i128,
}

/// A character of Unicode's White_Space property.
pub open spec fn white_space(c: char) -> bool {
    ||| '\u{9}' <= c <= '\u{d}'
    ||| c == '\u{20}'
    ||| c == '\u{85}'
    ||| c == '\u{a0}'
    ||| c == '\u{1680}'
    ||| '\u{2000}' <= c <= '\u{200a}'
    ||| '\u{2028}' <= c <= '\u{2029}'
    ||| c == '\u{202f}'
    ||| c == '\u{205f}'
    ||| c == '\u{3000}'
}

/// `char::is_whitespace`: whether the character has Unicode's White_Space
/// property, which the ranges of `white_space` list.
#[verifier::external_body]
fn is_white_space(c: char) -> (r: bool)
    ensures
        r == white_space(c),
{
    c.is_whitespace()
}

/// Nothing but white space.
pub open spec fn blank(text: Seq<char>) -> bool {
    forall|i: int| 0 <= i < text.len() ==> white_space(#[trigger] text[i])
}

fn is_blank(value: &str) -> (r: bool)
    ensures
        r == blank(value@),
{
    for c in it: value.chars()
        invariant
            it.seq() == value@,
            forall|j: int| 0 <= j < it.index() ==> white_space(#[trigger] value@[j]),
    {
        if !is_white_space(c) {
            assert(!white_space(value@[it.index()]));
            return false;
        }
    }
    true
}

/// A name that says something, in at most two hundred bytes without control
/// characters, and a credential that lives for a while.
pub open spec fn provision_valid(p: ProjectProvision) -> bool {
    &&& !blank(p.name@)
    &&& byte_len(p.name@) <= 200
    &&& !has_control(p.name@)
    &&& p.expires_at > p.created_at
}

/// The quotas that a new project gets.
pub open spec fn initial_limits() -> Doc {
    Doc::Object(
        Seq::<(Seq<char>, Doc)>::empty().push(("sandboxes"@, number(25))).push(("vcpu"@, number(100))).push(
            ("memory_mib"@, number(204800)),
        ).push(("disk_mib"@, number(1638400))),
    )
}

/// What provisioning a project may come to.
pub open spec fn project_provisioned(p: &ProjectProvision, r: Result<Json, StoreError>) -> bool {
    match r {
        Ok(limits) => provision_valid(*p) && limits@ == initial_limits(),
        Err(e) => !provision_valid(*p) && corrupt(e, "invalid provisioning metadata"@),
    }
}

/// Check what is to be provisioned, and give the quotas it is inserted with.
/// Inserting happens once; a retry confirms an exactly matching active project and
/// never rotates, unsuspends, overwrites quotas or resurrects a credential.
pub fn provision_project(p: &ProjectProvision) -> (r: Result<Json, StoreError>)
    ensures
        project_provisioned(p, r),
{
    if is_blank(p.name.as_str()) || byte_length(p.name.as_str()) > 200 || contains_control(p.name.as_str())
        || p.expires_at <= p.created_at {
        return Err(StoreError::Corrupt("invalid provisioning metadata".to_owned()));
    }
    let mut m: Members = Members::new();
    m.put("sandboxes", json_integer(25));
    m.put("vcpu", json_integer(100));
    m.put("memory_mib", json_integer(204800));
    m.put("disk_mib", json_integer(1638400));
    Ok(m.object())
}

} // verus!
