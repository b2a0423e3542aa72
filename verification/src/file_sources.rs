//! Private immutable source objects for admitted file writes. Never customer authority.
use crate::digest::{hex_encode, hex_text, sha256, sha256_of};
use crate::file_downloads::{read_scope_valid, ReadScope};
use crate::files::{same_upload, upload_check, upload_json, Upload};
use crate::guest_model::copy_text;
use crate::ids::{hyphenated, id_text, uuid_text, Id, OperationId};
use crate::json::{decimal, decimal_text, id_json, quoted, signed_decimal, signed_text};
use crate::output::{is_optional_identity, optional_identity};
use crate::text::{bounded_identity, extend, is_bounded_identity, same_text};
use vstd::prelude::*;
use vstd::string::*;
use vstd::utf8::*;

verus! {

#[derive(Debug, Clone, Copy, PartialEq, Eq, Structural)]
pub struct InvalidSource;

/// The answer of a check.
pub open spec fn source_verdict(ok: bool) -> Result<(), InvalidSource> {
    if ok {
        Ok(())
    } else {
        Err(InvalidSource)
    }
}

/// Independently resolved operation ownership, separate from a stored reference.
#[derive(Debug, Clone, Copy, PartialEq, Eq, Structural)]
pub struct SourceOwner {
    pub scope: ReadScope,
    pub operation_id: OperationId,
}

impl SourceOwner {
    pub fn validate(&self) -> (r: Result<(), InvalidSource>)
        ensures
            r == source_verdict(read_scope_valid(self.scope)),
    {
        if self.scope.validate().is_ok() {
            Ok(())
        } else {
            Err(InvalidSource)
        }
    }
}

/// Persist the complete plan and reserve its byte budget before any storage PUT.
/// A new attempt must never replace an uncertain attempt during recovery.
#[derive(PartialEq, Eq)]
pub struct SourcePlan {
    pub version: u32,
    pub owner: SourceOwner,
    pub upload: Upload,
    pub source_attempt: OperationId,
    pub created_unix_ms: i64,
    pub write_expires_unix_ms: i64,
    pub expires_unix_ms: i64,
    pub delete_after_unix_ms: i64,
}

pub open spec fn same_source_plan(a: SourcePlan, b: SourcePlan) -> bool {
    &&& a.version == b.version
    &&& a.owner == b.owner
    &&& same_upload(a.upload, b.upload)
    &&& a.source_attempt == b.source_attempt
    &&& a.created_unix_ms == b.created_unix_ms
    &&& a.write_expires_unix_ms == b.write_expires_unix_ms
    &&& a.expires_unix_ms == b.expires_unix_ms
    &&& a.delete_after_unix_ms == b.delete_after_unix_ms
}

/// The plan is for its owner's operation, and its times are in order: created,
/// then closed to writes, then expiring, then eligible for deletion.
pub open spec fn source_plan_valid(p: SourcePlan) -> bool {
    &&& read_scope_valid(p.owner.scope)
    &&& upload_check(p.upload) is Ok
    &&& p.owner.operation_id == p.upload.operation_id
    &&& p.version == 1
    &&& 0 < p.created_unix_ms < p.write_expires_unix_ms <= p.expires_unix_ms <= p.delete_after_unix_ms
}

/// Where a plan's source object is stored.
#[verifier::opaque]
pub open spec fn source_key_text(p: SourcePlan) -> Seq<char> {
    "file-source/v1/"@ + id_text("prj"@, p.owner.scope.project_id.value) + "/"@ + id_text(
        "sbx"@,
        p.owner.scope.sandbox_id.value,
    ) + "/"@ + id_text("op"@, p.upload.operation_id.value) + "/"@ + id_text("alc"@, p.owner.scope.allocation_id.value)
        + "/"@ + signed_decimal(p.owner.scope.generation as int) + "/"@ + id_text("hst"@, p.owner.scope.host_id.value)
        + "/"@ + signed_decimal(p.owner.scope.host_epoch as int) + "/"@ + id_text("op"@, p.source_attempt.value)
}

#[verifier::opaque]
pub open spec fn scope_json(s: ReadScope) -> Seq<char> {
    "{\"version\":"@ + decimal(s.version as nat) + ",\"host_id\":"@ + id_json("hst"@, s.host_id.value)
        + ",\"host_epoch\":"@ + signed_decimal(s.host_epoch as int) + ",\"project_id\":"@ + id_json(
        "prj"@,
        s.project_id.value,
    ) + ",\"sandbox_id\":"@ + id_json("sbx"@, s.sandbox_id.value) + ",\"allocation_id\":"@ + id_json(
        "alc"@,
        s.allocation_id.value,
    ) + ",\"generation\":"@ + signed_decimal(s.generation as int) + "}"@
}

/// The typed encoding of a source plan: its fields in declaration order.
#[verifier::opaque]
pub open spec fn source_plan_json(p: SourcePlan) -> Seq<char> {
    "{\"version\":"@ + decimal(p.version as nat) + ",\"owner\":{\"scope\":"@ + scope_json(p.owner.scope)
        + ",\"operation_id\":"@ + id_json("op"@, p.owner.operation_id.value) + "},\"upload\":"@ + upload_json(p.upload)
        + ",\"source_attempt\":"@ + id_json("op"@, p.source_attempt.value) + ",\"created_unix_ms\":"@ + signed_decimal(
        p.created_unix_ms as int,
    ) + ",\"write_expires_unix_ms\":"@ + signed_decimal(p.write_expires_unix_ms as int) + ",\"expires_unix_ms\":"@
        + signed_decimal(p.expires_unix_ms as int) + ",\"delete_after_unix_ms\":"@ + signed_decimal(
        p.delete_after_unix_ms as int,
    ) + "}"@
}

/// The digest, in hexadecimal, of everything a plan says.
pub open spec fn source_plan_digest(p: SourcePlan) -> Seq<char> {
    hex_text(sha256_of(encode_utf8("hudson-file-source-v1\0"@) + encode_utf8(source_plan_json(p)))@)
}

impl ReadScope {
    /// The typed encoding of the scope: its fields in declaration order.
    pub fn render(&self) -> (r: String)
        ensures
            r@ == scope_json(*self),
    {
        proof {
            reveal(scope_json);
        }
        let mut out: String = "{\"version\":".to_owned();
        out.append(decimal_text(self.version as u64).as_str());
        out.append(",\"host_id\":");
        out.append(quoted(self.host_id.to_string().as_str()).as_str());
        out.append(",\"host_epoch\":");
        out.append(signed_text(self.host_epoch).as_str());
        out.append(",\"project_id\":");
        out.append(quoted(self.project_id.to_string().as_str()).as_str());
        out.append(",\"sandbox_id\":");
        out.append(quoted(self.sandbox_id.to_string().as_str()).as_str());
        out.append(",\"allocation_id\":");
        out.append(quoted(self.allocation_id.to_string().as_str()).as_str());
        out.append(",\"generation\":");
        out.append(signed_text(self.generation).as_str());
        out.append("}");
        out
    }
}

impl Clone for SourcePlan {
    fn clone(&self) -> (r: Self)
        ensures
            r == *self,
    {
        SourcePlan {
            version: self.version,
            owner: self.owner,
            upload: self.upload.clone(),
            source_attempt: self.source_attempt,
            created_unix_ms: self.created_unix_ms,
            write_expires_unix_ms: self.write_expires_unix_ms,
            expires_unix_ms: self.expires_unix_ms,
            delete_after_unix_ms: self.delete_after_unix_ms,
        }
    }
}

impl SourcePlan {
    pub fn validate(&self) -> (r: Result<(), InvalidSource>)
        ensures
            r == source_verdict(source_plan_valid(*self)),
    {
        if self.owner.validate().is_err() || self.upload.validate().is_err() {
            return Err(InvalidSource);
        }
        if self.owner.operation_id != self.upload.operation_id || self.version != 1 || self.created_unix_ms <= 0
            || self.write_expires_unix_ms <= self.created_unix_ms || self.expires_unix_ms < self.write_expires_unix_ms
            || self.delete_after_unix_ms < self.expires_unix_ms {
            return Err(InvalidSource);
        }
        Ok(())
    }

    pub fn same(&self, other: &SourcePlan) -> (r: bool)
        ensures
            r == same_source_plan(*self, *other),
    {
        self.version == other.version && self.owner == other.owner && self.upload.same(&other.upload)
            && self.source_attempt == other.source_attempt && self.created_unix_ms == other.created_unix_ms
            && self.write_expires_unix_ms == other.write_expires_unix_ms && self.expires_unix_ms
            == other.expires_unix_ms && self.delete_after_unix_ms == other.delete_after_unix_ms
    }

    pub fn object_key(&self) -> (r: Result<String, InvalidSource>)
        ensures
            match r {
                Ok(key) => source_plan_valid(*self) && key@ == source_key_text(*self),
                Err(_) => !source_plan_valid(*self),
            },
    {
        if self.validate().is_err() {
            return Err(InvalidSource);
        }
        proof {
            reveal(source_key_text);
        }
        let mut out: String = "file-source/v1/".to_owned();
        out.append(self.owner.scope.project_id.to_string().as_str());
        out.append("/");
        out.append(self.owner.scope.sandbox_id.to_string().as_str());
        out.append("/");
        out.append(self.upload.operation_id.to_string().as_str());
        out.append("/");
        out.append(self.owner.scope.allocation_id.to_string().as_str());
        out.append("/");
        out.append(signed_text(self.owner.scope.generation).as_str());
        out.append("/");
        out.append(self.owner.scope.host_id.to_string().as_str());
        out.append("/");
        out.append(signed_text(self.owner.scope.host_epoch).as_str());
        out.append("/");
        out.append(self.source_attempt.to_string().as_str());
        Ok(out)
    }

    fn render(&self) -> (r: String)
        ensures
            r@ == source_plan_json(*self),
    {
        proof {
            reveal(source_plan_json);
        }
        let mut out: String = "{\"version\":".to_owned();
        out.append(decimal_text(self.version as u64).as_str());
        out.append(",\"owner\":{\"scope\":");
        out.append(self.owner.scope.render().as_str());
        out.append(",\"operation_id\":");
        out.append(quoted(self.owner.operation_id.to_string().as_str()).as_str());
        out.append("},\"upload\":");
        out.append(self.upload.render().as_str());
        out.append(",\"source_attempt\":");
        out.append(quoted(self.source_attempt.to_string().as_str()).as_str());
        out.append(",\"created_unix_ms\":");
        out.append(signed_text(self.created_unix_ms).as_str());
        out.append(",\"write_expires_unix_ms\":");
        out.append(signed_text(self.write_expires_unix_ms).as_str());
        out.append(",\"expires_unix_ms\":");
        out.append(signed_text(self.expires_unix_ms).as_str());
        out.append(",\"delete_after_unix_ms\":");
        out.append(signed_text(self.delete_after_unix_ms).as_str());
        out.append("}");
        out
    }

    pub fn metadata_digest(&self) -> (r: Result<String, InvalidSource>)
        ensures
            match r {
                Ok(digest) => source_plan_valid(*self) && digest@ == source_plan_digest(*self),
                Err(_) => !source_plan_valid(*self),
            },
    {
        if self.validate().is_err() {
            return Err(InvalidSource);
        }
        let mut input: Vec<u8> = "hudson-file-source-v1\0".as_bytes_vec();
        extend(&mut input, self.render().as_str().as_bytes());
        let digest: [u8; 32] = sha256(input.as_slice());
        Ok(hex_encode(digest.as_slice()))
    }
}

#[derive(PartialEq, Eq)]
pub struct SourceRef {
    pub plan: SourcePlan,
    pub etag: String,
    pub object_version: Option<String>,
}

impl Clone for SourceRef {
    fn clone(&self) -> (r: Self)
        ensures
            r == *self,
    {
        SourceRef { plan: self.plan.clone(), etag: self.etag.clone(), object_version: copy_text(&self.object_version) }
    }
}

pub open spec fn source_ref_valid(r: SourceRef) -> bool {
    source_plan_valid(r.plan) && bounded_identity(r.etag@, 1024) && optional_identity(r.object_version, 1024)
}

fn identity(value: &str) -> (r: Result<(), InvalidSource>)
    ensures
        r == source_verdict(bounded_identity(value@, 1024)),
{
    if is_bounded_identity(value, 1024) {
        Ok(())
    } else {
        Err(InvalidSource)
    }
}

impl SourceRef {
    pub fn validate(&self) -> (r: Result<(), InvalidSource>)
        ensures
            r == source_verdict(source_ref_valid(*self)),
    {
        if self.plan.validate().is_err() || identity(self.etag.as_str()).is_err() || !is_optional_identity(
            &self.object_version,
            1024,
        ) {
            return Err(InvalidSource);
        }
        Ok(())
    }
}

#[derive(PartialEq, Eq)]
pub struct SourceRetirement {
    pub version: u32,
    pub plan_sha256: String,
    pub previous: Option<SourceRef>,
    pub marker_etag: String,
    pub marker_version: Option<String>,
}

impl Clone for SourceRetirement {
    fn clone(&self) -> (r: Self)
        ensures
            r == *self,
    {
        SourceRetirement {
            version: self.version,
            plan_sha256: self.plan_sha256.clone(),
            previous: match &self.previous {
                Some(x) => Some(x.clone()),
                None => None,
            },
            marker_etag: self.marker_etag.clone(),
            marker_version: copy_text(&self.marker_version),
        }
    }
}

/// The deletion marker is another version than what it retires: both unversioned,
/// both the null version of a suspended bucket, or two different versions.
pub open spec fn versions_compatible(old: Option<String>, marker: Option<String>) -> bool {
    match (old, marker) {
        (None, None) => true,
        (Some(x), Some(y)) => (x@ == "null"@ && y@ == "null"@) || x@ != y@,
        _ => false,
    }
}

pub open spec fn source_retirement_valid(r: SourceRetirement, plan: SourcePlan) -> bool {
    &&& r.version == 1
    &&& source_plan_valid(plan)
    &&& r.plan_sha256@ == source_plan_digest(plan)
    &&& bounded_identity(r.marker_etag@, 1024)
    &&& optional_identity(r.marker_version, 1024)
    &&& (r.previous matches Some(previous) ==> {
        &&& source_ref_valid(previous)
        &&& same_source_plan(previous.plan, plan)
        &&& versions_compatible(previous.object_version, r.marker_version)
    })
}

fn compatible(old: &Option<String>, marker: &Option<String>) -> (r: bool)
    ensures
        r == versions_compatible(*old, *marker),
{
    match (old, marker) {
        (None, None) => true,
        (Some(x), Some(y)) => (same_text(x.as_str(), "null") && same_text(y.as_str(), "null")) || !same_text(
            x.as_str(),
            y.as_str(),
        ),
        _ => false,
    }
}

impl SourceRetirement {
    pub fn validate(&self, plan: &SourcePlan) -> (r: Result<(), InvalidSource>)
        ensures
            r == source_verdict(source_retirement_valid(*self, *plan)),
    {
        if self.version != 1 {
            return Err(InvalidSource);
        }
        match plan.metadata_digest() {
            Ok(digest) => {
                if !same_text(self.plan_sha256.as_str(), digest.as_str()) {
                    return Err(InvalidSource);
                }
            },
            Err(e) => {
                return Err(e);
            },
        }
        if identity(self.marker_etag.as_str()).is_err() || !is_optional_identity(&self.marker_version, 1024) {
            return Err(InvalidSource);
        }
        match &self.previous {
            Some(previous) => {
                if previous.validate().is_err() || !previous.plan.same(plan) || !compatible(
                    &previous.object_version,
                    &self.marker_version,
                ) {
                    return Err(InvalidSource);
                }
            },
            None => {},
        }
        Ok(())
    }
}

/// The form for a log line: which upload and how much, never its path.
pub open spec fn plan_line(p: SourcePlan) -> Seq<char> {
    "SourcePlan { operation_id: OperationId("@ + hyphenated(p.upload.operation_id.value)
        + "), source_attempt: OperationId("@ + hyphenated(p.source_attempt.value) + "), size: "@ + decimal(
        p.upload.size as nat,
    ) + ", .. }"@
}

impl SourcePlan {
    pub fn debug_text(&self) -> (r: String)
        ensures
            r@ == plan_line(*self),
    {
        let mut out: String = "SourcePlan { operation_id: OperationId(".to_owned();
        out.append(uuid_text(self.upload.operation_id.value).as_str());
        out.append("), source_attempt: OperationId(");
        out.append(uuid_text(self.source_attempt.value).as_str());
        out.append("), size: ");
        out.append(decimal_text(self.upload.size).as_str());
        out.append(", .. }");
        out
    }
}

} // verus!
