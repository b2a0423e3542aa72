//! Private output descriptors. These are storage metadata, never authorization.
use crate::allocation_retirement::{bool_json, bool_text};
use crate::command::MAX_OUTPUT;
use crate::digest::{hex_encode, hex_text, sha256, sha256_of};
use crate::guest_model::copy_text;
use crate::ids::{
    id_text, AllocationId, HostId, Id, OperationId, ProjectId, SandboxId,
};
use crate::json::{
    decimal, decimal_text, id_json, json_string, quoted, signed_decimal, signed_text,
};
use crate::text::{
    bounded_identity, is_bounded_identity, is_lower_hex, lower_hex_text, same_text,
};
use vstd::prelude::*;
use vstd::string::*;
use vstd::utf8::*;

verus! {

pub const MAX_CHUNK: usize = 32768;

#[derive(Debug, Clone, Copy, PartialEq, Eq, Structural)]
pub enum OutputName {
    Stdout,
    Stderr,
}

pub open spec fn output_name_text(name: OutputName) -> Seq<char> {
    match name {
        OutputName::Stdout => "stdout"@,
        OutputName::Stderr => "stderr"@,
    }
}

impl OutputName {
    pub fn as_str(self) -> (r: &'static str)
        ensures
            r@ == output_name_text(self),
    {
        match self {
            OutputName::Stdout => "stdout",
            OutputName::Stderr => "stderr",
        }
    }
}

#[derive(Debug, Clone, Copy, PartialEq, Eq, Structural)]
pub struct InvalidOutput;

/// The answer of a check.
pub open spec fn verdict(ok: bool) -> Result<(), InvalidOutput> {
    if ok {
        Ok(())
    } else {
        Err(InvalidOutput)
    }
}

#[derive(Debug, PartialEq, Eq)]
pub struct OutputOwner {
    pub project_id: ProjectId,
    pub sandbox_id: SandboxId,
    pub operation_id: OperationId,
    pub allocation_id: AllocationId,
    pub generation: i64,
    pub host_id: HostId,
    pub host_epoch: i64,
    pub boot_id: String,
}

pub open spec fn same_owner(a: OutputOwner, b: OutputOwner) -> bool {
    &&& a.project_id == b.project_id
    &&& a.sandbox_id == b.sandbox_id
    &&& a.operation_id == b.operation_id
    &&& a.allocation_id == b.allocation_id
    &&& a.generation == b.generation
    &&& a.host_id == b.host_id
    &&& a.host_epoch == b.host_epoch
    &&& a.boot_id@ == b.boot_id@
}

pub open spec fn owner_valid(o: OutputOwner) -> bool {
    o.generation > 0 && o.host_epoch > 0 && bounded_identity(o.boot_id@, 64)
}

#[verifier::opaque]
pub open spec fn owner_json(o: OutputOwner) -> Seq<char> {
    "{\"project_id\":"@ + id_json("prj"@, o.project_id.value) + ",\"sandbox_id\":"@ + id_json("sbx"@, o.sandbox_id.value)
        + ",\"operation_id\":"@ + id_json("op"@, o.operation_id.value) + ",\"allocation_id\":"@ + id_json(
        "alc"@,
        o.allocation_id.value,
    ) + ",\"generation\":"@ + signed_decimal(o.generation as int) + ",\"host_id\":"@ + id_json("hst"@, o.host_id.value)
        + ",\"host_epoch\":"@ + signed_decimal(o.host_epoch as int) + ",\"boot_id\":"@ + json_string(o.boot_id@) + "}"@
}

impl Clone for OutputOwner {
    fn clone(&self) -> (r: Self)
        ensures
            r == *self,
    {
        OutputOwner {
            project_id: self.project_id,
            sandbox_id: self.sandbox_id,
            operation_id: self.operation_id,
            allocation_id: self.allocation_id,
            generation: self.generation,
            host_id: self.host_id,
            host_epoch: self.host_epoch,
            boot_id: self.boot_id.clone(),
        }
    }
}

impl OutputOwner {
    pub fn validate(&self) -> (r: Result<(), InvalidOutput>)
        ensures
            r == verdict(owner_valid(*self)),
    {
        if self.generation <= 0 || self.host_epoch <= 0 || !is_bounded_identity(self.boot_id.as_str(), 64) {
            return Err(InvalidOutput);
        }
        Ok(())
    }

    pub fn same(&self, other: &OutputOwner) -> (r: bool)
        ensures
            r == same_owner(*self, *other),
    {
        self.project_id == other.project_id && self.sandbox_id == other.sandbox_id && self.operation_id
            == other.operation_id && self.allocation_id == other.allocation_id && self.generation == other.generation
            && self.host_id == other.host_id && self.host_epoch == other.host_epoch && same_text(
            self.boot_id.as_str(),
            other.boot_id.as_str(),
        )
    }

    fn render(&self) -> (r: String)
        ensures
            r@ == owner_json(*self),
    {
        proof {
            reveal(owner_json);
        }
        let mut out: String = "{\"project_id\":".to_owned();
        out.append(quoted(self.project_id.to_string().as_str()).as_str());
        out.append(",\"sandbox_id\":");
        out.append(quoted(self.sandbox_id.to_string().as_str()).as_str());
        out.append(",\"operation_id\":");
        out.append(quoted(self.operation_id.to_string().as_str()).as_str());
        out.append(",\"allocation_id\":");
        out.append(quoted(self.allocation_id.to_string().as_str()).as_str());
        out.append(",\"generation\":");
        out.append(signed_text(self.generation).as_str());
        out.append(",\"host_id\":");
        out.append(quoted(self.host_id.to_string().as_str()).as_str());
        out.append(",\"host_epoch\":");
        out.append(signed_text(self.host_epoch).as_str());
        out.append(",\"boot_id\":");
        out.append(quoted(self.boot_id.as_str()).as_str());
        out.append("}");
        out
    }
}

/// Retention times in order: created, then expiring, then eligible for deletion.
pub open spec fn retention_ordered(created: i64, expires: i64, delete_after: i64) -> bool {
    0 < created < expires <= delete_after
}

/// Service-assigned identity/retention before collecting the final bytes.
/// Replacement workers must retain this ticket, including its attempt ID.
#[derive(Debug, PartialEq, Eq)]
pub struct OutputTicket {
    pub version: u32,
    pub owner: OutputOwner,
    pub upload_attempt: OperationId,
    pub output_limit: u64,
    pub created_unix_ms: i64,
    pub expires_unix_ms: i64,
    pub delete_after_unix_ms: i64,
}

pub open spec fn same_ticket(a: OutputTicket, b: OutputTicket) -> bool {
    &&& a.version == b.version
    &&& same_owner(a.owner, b.owner)
    &&& a.upload_attempt == b.upload_attempt
    &&& a.output_limit == b.output_limit
    &&& a.created_unix_ms == b.created_unix_ms
    &&& a.expires_unix_ms == b.expires_unix_ms
    &&& a.delete_after_unix_ms == b.delete_after_unix_ms
}

pub open spec fn ticket_valid(t: OutputTicket) -> bool {
    &&& owner_valid(t.owner)
    &&& t.version == 1
    &&& 1 <= t.output_limit <= MAX_OUTPUT
    &&& retention_ordered(t.created_unix_ms, t.expires_unix_ms, t.delete_after_unix_ms)
}

/// The plans are valid for the ticket's owner and limit, and carry its attempt
/// and retention.
pub open spec fn ticket_plans_valid(t: OutputTicket, plans: OutputPlans) -> bool {
    &&& ticket_valid(t)
    &&& plans_valid(plans, t.owner, t.output_limit)
    &&& plans.stdout.upload_attempt == t.upload_attempt
    &&& plans.stdout.created_unix_ms == t.created_unix_ms
    &&& plans.stdout.expires_unix_ms == t.expires_unix_ms
    &&& plans.stdout.delete_after_unix_ms == t.delete_after_unix_ms
}

impl Clone for OutputTicket {
    fn clone(&self) -> (r: Self)
        ensures
            r == *self,
    {
        OutputTicket {
            version: self.version,
            owner: self.owner.clone(),
            upload_attempt: self.upload_attempt,
            output_limit: self.output_limit,
            created_unix_ms: self.created_unix_ms,
            expires_unix_ms: self.expires_unix_ms,
            delete_after_unix_ms: self.delete_after_unix_ms,
        }
    }
}

impl OutputTicket {
    pub fn validate(&self) -> (r: Result<(), InvalidOutput>)
        ensures
            r == verdict(ticket_valid(*self)),
    {
        if self.owner.validate().is_err() {
            return Err(InvalidOutput);
        }
        if self.version != 1 || self.output_limit < 1 || self.output_limit > MAX_OUTPUT || self.created_unix_ms <= 0
            || self.expires_unix_ms <= self.created_unix_ms || self.delete_after_unix_ms < self.expires_unix_ms {
            return Err(InvalidOutput);
        }
        Ok(())
    }

    pub fn validate_plans(&self, plans: &OutputPlans) -> (r: Result<(), InvalidOutput>)
        ensures
            r == verdict(ticket_plans_valid(*self, *plans)),
    {
        if self.validate().is_err() || plans.validate(&self.owner, self.output_limit).is_err() {
            return Err(InvalidOutput);
        }
        let a: &OutputPlan = &plans.stdout;
        if a.upload_attempt != self.upload_attempt || a.created_unix_ms != self.created_unix_ms || a.expires_unix_ms
            != self.expires_unix_ms || a.delete_after_unix_ms != self.delete_after_unix_ms {
            return Err(InvalidOutput);
        }
        Ok(())
    }

    pub fn same(&self, other: &OutputTicket) -> (r: bool)
        ensures
            r == same_ticket(*self, *other),
    {
        self.version == other.version && self.owner.same(&other.owner) && self.upload_attempt == other.upload_attempt
            && self.output_limit == other.output_limit && self.created_unix_ms == other.created_unix_ms
            && self.expires_unix_ms == other.expires_unix_ms && self.delete_after_unix_ms == other.delete_after_unix_ms
    }
}

/// Persist this plan before uploading. Reconciliation must reuse it exactly.
/// Only final captured output can use this format; live output uses guest reads.
#[derive(Debug, PartialEq, Eq)]
pub struct OutputPlan {
    pub version: u32,
    pub owner: OutputOwner,
    pub upload_attempt: OperationId,
    pub name: OutputName,
    pub size: u64,
    pub sha256: String,
    pub seen: u64,
    pub truncated: bool,
    pub created_unix_ms: i64,
    pub expires_unix_ms: i64,
    /// Earliest eligible deletion, not evidence that deletion happened.
    pub delete_after_unix_ms: i64,
}

pub open spec fn same_plan(a: OutputPlan, b: OutputPlan) -> bool {
    &&& a.version == b.version
    &&& same_owner(a.owner, b.owner)
    &&& a.upload_attempt == b.upload_attempt
    &&& a.name == b.name
    &&& a.size == b.size
    &&& a.sha256@ == b.sha256@
    &&& a.seen == b.seen
    &&& a.truncated == b.truncated
    &&& a.created_unix_ms == b.created_unix_ms
    &&& a.expires_unix_ms == b.expires_unix_ms
    &&& a.delete_after_unix_ms == b.delete_after_unix_ms
}

pub open spec fn plan_valid(p: OutputPlan) -> bool {
    &&& owner_valid(p.owner)
    &&& p.version == 1
    &&& p.size <= MAX_OUTPUT
    &&& p.seen >= p.size
    &&& p.truncated == (p.seen > p.size)
    &&& p.sha256@.len() == 64
    &&& lower_hex_text(p.sha256@)
    &&& retention_ordered(p.created_unix_ms, p.expires_unix_ms, p.delete_after_unix_ms)
}

/// Where a plan's object is stored.
#[verifier::opaque]
pub open spec fn object_key_text(p: OutputPlan) -> Seq<char> {
    "output/v1/"@ + id_text("prj"@, p.owner.project_id.value) + "/"@ + id_text("sbx"@, p.owner.sandbox_id.value) + "/"@
        + id_text("op"@, p.owner.operation_id.value) + "/"@ + id_text("alc"@, p.owner.allocation_id.value) + "/"@
        + signed_decimal(p.owner.generation as int) + "/"@ + id_text("hst"@, p.owner.host_id.value) + "/"@
        + signed_decimal(p.owner.host_epoch as int) + "/"@ + id_text("op"@, p.upload_attempt.value) + "/"@
        + output_name_text(p.name)
}

/// The typed encoding of a plan: its fields in declaration order.
#[verifier::opaque]
pub open spec fn plan_json(p: OutputPlan) -> Seq<char> {
    "{\"version\":"@ + decimal(p.version as nat) + ",\"owner\":"@ + owner_json(p.owner) + ",\"upload_attempt\":"@
        + id_json("op"@, p.upload_attempt.value) + ",\"name\":"@ + json_string(output_name_text(p.name)) + ",\"size\":"@
        + decimal(p.size as nat) + ",\"sha256\":"@ + json_string(p.sha256@) + ",\"seen\":"@ + decimal(p.seen as nat)
        + ",\"truncated\":"@ + bool_json(p.truncated) + ",\"created_unix_ms\":"@ + signed_decimal(
        p.created_unix_ms as int,
    ) + ",\"expires_unix_ms\":"@ + signed_decimal(p.expires_unix_ms as int) + ",\"delete_after_unix_ms\":"@
        + signed_decimal(p.delete_after_unix_ms as int) + "}"@
}

/// The digest, in hexadecimal, of everything a plan says.
pub open spec fn plan_digest(p: OutputPlan) -> Seq<char> {
    hex_text(sha256_of(encode_utf8(plan_json(p)))@)
}

impl Clone for OutputPlan {
    fn clone(&self) -> (r: Self)
        ensures
            r == *self,
    {
        OutputPlan {
            version: self.version,
            owner: self.owner.clone(),
            upload_attempt: self.upload_attempt,
            name: self.name,
            size: self.size,
            sha256: self.sha256.clone(),
            seen: self.seen,
            truncated: self.truncated,
            created_unix_ms: self.created_unix_ms,
            expires_unix_ms: self.expires_unix_ms,
            delete_after_unix_ms: self.delete_after_unix_ms,
        }
    }
}

impl OutputPlan {
    pub fn validate(&self) -> (r: Result<(), InvalidOutput>)
        ensures
            r == verdict(plan_valid(*self)),
    {
        if self.owner.validate().is_err() {
            return Err(InvalidOutput);
        }
        if self.version != 1 || self.size > MAX_OUTPUT || self.seen < self.size || self.truncated != (self.seen
            > self.size) || self.sha256.as_str().unicode_len() != 64 || !is_lower_hex(self.sha256.as_str())
            || self.created_unix_ms <= 0 || self.expires_unix_ms <= self.created_unix_ms || self.delete_after_unix_ms
            < self.expires_unix_ms {
            return Err(InvalidOutput);
        }
        Ok(())
    }

    pub fn same(&self, other: &OutputPlan) -> (r: bool)
        ensures
            r == same_plan(*self, *other),
    {
        self.version == other.version && self.owner.same(&other.owner) && self.upload_attempt == other.upload_attempt
            && self.name == other.name && self.size == other.size && same_text(
            self.sha256.as_str(),
            other.sha256.as_str(),
        ) && self.seen == other.seen && self.truncated == other.truncated && self.created_unix_ms
            == other.created_unix_ms && self.expires_unix_ms == other.expires_unix_ms && self.delete_after_unix_ms
            == other.delete_after_unix_ms
    }

    /// Customer strings never become path segments. A new attempt has a new
    /// key; publication must choose one attempt transactionally in the store.
    pub fn object_key(&self) -> (r: Result<String, InvalidOutput>)
        ensures
            match r {
                Ok(key) => plan_valid(*self) && key@ == object_key_text(*self),
                Err(_) => !plan_valid(*self),
            },
    {
        if self.validate().is_err() {
            return Err(InvalidOutput);
        }
        proof {
            reveal(object_key_text);
        }
        let mut out: String = "output/v1/".to_owned();
        out.append(self.owner.project_id.to_string().as_str());
        out.append("/");
        out.append(self.owner.sandbox_id.to_string().as_str());
        out.append("/");
        out.append(self.owner.operation_id.to_string().as_str());
        out.append("/");
        out.append(self.owner.allocation_id.to_string().as_str());
        out.append("/");
        out.append(signed_text(self.owner.generation).as_str());
        out.append("/");
        out.append(self.owner.host_id.to_string().as_str());
        out.append("/");
        out.append(signed_text(self.owner.host_epoch).as_str());
        out.append("/");
        out.append(self.upload_attempt.to_string().as_str());
        out.append("/");
        out.append(self.name.as_str());
        Ok(out)
    }

    fn render(&self) -> (r: String)
        ensures
            r@ == plan_json(*self),
    {
        proof {
            reveal(plan_json);
        }
        let mut out: String = "{\"version\":".to_owned();
        out.append(decimal_text(self.version as u64).as_str());
        out.append(",\"owner\":");
        out.append(self.owner.render().as_str());
        out.append(",\"upload_attempt\":");
        out.append(quoted(self.upload_attempt.to_string().as_str()).as_str());
        out.append(",\"name\":");
        out.append(quoted(self.name.as_str()).as_str());
        out.append(",\"size\":");
        out.append(decimal_text(self.size).as_str());
        out.append(",\"sha256\":");
        out.append(quoted(self.sha256.as_str()).as_str());
        out.append(",\"seen\":");
        out.append(decimal_text(self.seen).as_str());
        out.append(",\"truncated\":");
        out.append(bool_text(self.truncated));
        out.append(",\"created_unix_ms\":");
        out.append(signed_text(self.created_unix_ms).as_str());
        out.append(",\"expires_unix_ms\":");
        out.append(signed_text(self.expires_unix_ms).as_str());
        out.append(",\"delete_after_unix_ms\":");
        out.append(signed_text(self.delete_after_unix_ms).as_str());
        out.append("}");
        out
    }

    /// Bind all metadata, including boot and retention, to the stored object.
    pub fn metadata_digest(&self) -> (r: Result<String, InvalidOutput>)
        ensures
            match r {
                Ok(digest) => plan_valid(*self) && digest@ == plan_digest(*self),
                Err(_) => !plan_valid(*self),
            },
    {
        if self.validate().is_err() {
            return Err(InvalidOutput);
        }
        let text: String = self.render();
        let digest: [u8; 32] = sha256(text.as_str().as_bytes());
        Ok(hex_encode(digest.as_slice()))
    }
}

#[derive(Debug, PartialEq, Eq)]
pub struct OutputRef {
    pub plan: OutputPlan,
    pub etag: String,
    pub object_version: Option<String>,
}

/// Optional text is a bounded identity where it is there.
pub open spec fn optional_identity(text: Option<String>, limit: int) -> bool {
    text matches Some(t) ==> bounded_identity(t@, limit)
}

pub fn is_optional_identity(text: &Option<String>, limit: usize) -> (r: bool)
    ensures
        r == optional_identity(*text, limit as int),
{
    match text {
        Some(t) => is_bounded_identity(t.as_str(), limit),
        None => true,
    }
}

pub open spec fn ref_valid(r: OutputRef) -> bool {
    plan_valid(r.plan) && bounded_identity(r.etag@, 1024) && optional_identity(r.object_version, 1024)
}

pub open spec fn same_ref(a: OutputRef, b: OutputRef) -> bool {
    same_plan(a.plan, b.plan) && a.etag@ == b.etag@ && match (a.object_version, b.object_version) {
        (Some(x), Some(y)) => x@ == y@,
        (None, None) => true,
        _ => false,
    }
}

impl Clone for OutputRef {
    fn clone(&self) -> (r: Self)
        ensures
            r == *self,
    {
        OutputRef {
            plan: self.plan.clone(),
            etag: self.etag.clone(),
            object_version: copy_text(&self.object_version),
        }
    }
}

impl OutputRef {
    pub fn same(&self, other: &OutputRef) -> (r: bool)
        ensures
            r == same_ref(*self, *other),
    {
        let versions: bool = match (&self.object_version, &other.object_version) {
            (Some(x), Some(y)) => same_text(x.as_str(), y.as_str()),
            (None, None) => true,
            _ => false,
        };
        self.plan.same(&other.plan) && same_text(self.etag.as_str(), other.etag.as_str()) && versions
    }

    pub fn validate(&self) -> (r: Result<(), InvalidOutput>)
        ensures
            r == verdict(ref_valid(*self)),
    {
        if self.plan.validate().is_err() || !is_bounded_identity(self.etag.as_str(), 1024) || !is_optional_identity(
            &self.object_version,
            1024,
        ) {
            return Err(InvalidOutput);
        }
        Ok(())
    }
}

/// Exactly two final streams, including explicit empty ones. Absence of a
/// reference is not proof of an empty successful stream.
#[derive(Debug, PartialEq, Eq)]
pub struct OutputRefs {
    pub stdout: OutputRef,
    pub stderr: OutputRef,
}

/// Persisted together before any external upload can be authorized.
#[derive(Debug, PartialEq, Eq)]
pub struct OutputPlans {
    pub stdout: OutputPlan,
    pub stderr: OutputPlan,
}

impl Clone for OutputRefs {
    fn clone(&self) -> (r: Self)
        ensures
            r == *self,
    {
        OutputRefs { stdout: self.stdout.clone(), stderr: self.stderr.clone() }
    }
}

impl Clone for OutputPlans {
    fn clone(&self) -> (r: Self)
        ensures
            r == *self,
    {
        OutputPlans { stdout: self.stdout.clone(), stderr: self.stderr.clone() }
    }
}

pub open spec fn same_refs(a: OutputRefs, b: OutputRefs) -> bool {
    same_ref(a.stdout, b.stdout) && same_ref(a.stderr, b.stderr)
}

pub open spec fn same_plans(a: OutputPlans, b: OutputPlans) -> bool {
    same_plan(a.stdout, b.stdout) && same_plan(a.stderr, b.stderr)
}

/// The two streams of one attempt of one owner, sharing the output limit.
pub open spec fn pair_valid(a: OutputPlan, b: OutputPlan, owner: OutputOwner, output_limit: u64) -> bool {
    &&& a.name == OutputName::Stdout
    &&& b.name == OutputName::Stderr
    &&& same_owner(a.owner, owner)
    &&& same_owner(b.owner, owner)
    &&& a.upload_attempt == b.upload_attempt
    &&& a.created_unix_ms == b.created_unix_ms
    &&& a.expires_unix_ms == b.expires_unix_ms
    &&& a.delete_after_unix_ms == b.delete_after_unix_ms
    &&& 1 <= output_limit <= MAX_OUTPUT
    &&& a.size + b.size <= output_limit
}

pub open spec fn plans_valid(plans: OutputPlans, owner: OutputOwner, output_limit: u64) -> bool {
    plan_valid(plans.stdout) && plan_valid(plans.stderr) && pair_valid(plans.stdout, plans.stderr, owner, output_limit)
}

pub open spec fn refs_valid(refs: OutputRefs, owner: OutputOwner, output_limit: u64) -> bool {
    ref_valid(refs.stdout) && ref_valid(refs.stderr) && pair_valid(
        refs.stdout.plan,
        refs.stderr.plan,
        owner,
        output_limit,
    )
}

fn validate_pair(a: &OutputPlan, b: &OutputPlan, owner: &OutputOwner, output_limit: u64) -> (r: Result<(), InvalidOutput>)
    requires
        a.size <= MAX_OUTPUT,
        b.size <= MAX_OUTPUT,
    ensures
        r == verdict(pair_valid(*a, *b, *owner, output_limit)),
{
    if a.name != OutputName::Stdout || b.name != OutputName::Stderr || !a.owner.same(owner) || !b.owner.same(owner)
        || a.upload_attempt != b.upload_attempt || a.created_unix_ms != b.created_unix_ms || a.expires_unix_ms
        != b.expires_unix_ms || a.delete_after_unix_ms != b.delete_after_unix_ms || output_limit < 1 || output_limit
        > MAX_OUTPUT || a.size + b.size > output_limit {
        return Err(InvalidOutput);
    }
    Ok(())
}

impl OutputPlans {
    pub fn validate(&self, owner: &OutputOwner, output_limit: u64) -> (r: Result<(), InvalidOutput>)
        ensures
            r == verdict(plans_valid(*self, *owner, output_limit)),
    {
        if self.stdout.validate().is_err() || self.stderr.validate().is_err() {
            return Err(InvalidOutput);
        }
        validate_pair(&self.stdout, &self.stderr, owner, output_limit)
    }

    pub fn same(&self, other: &OutputPlans) -> (r: bool)
        ensures
            r == same_plans(*self, *other),
    {
        self.stdout.same(&other.stdout) && self.stderr.same(&other.stderr)
    }
}

impl OutputRefs {
    pub fn same(&self, other: &OutputRefs) -> (r: bool)
        ensures
            r == same_refs(*self, *other),
    {
        self.stdout.same(&other.stdout) && self.stderr.same(&other.stderr)
    }

    pub fn validate(&self, owner: &OutputOwner, output_limit: u64) -> (r: Result<(), InvalidOutput>)
        ensures
            r == verdict(refs_valid(*self, *owner, output_limit)),
    {
        if self.stdout.validate().is_err() || self.stderr.validate().is_err() {
            return Err(InvalidOutput);
        }
        validate_pair(&self.stdout.plan, &self.stderr.plan, owner, output_limit)
    }

    pub fn plans(&self) -> (r: OutputPlans)
        ensures
            r.stdout == self.stdout.plan,
            r.stderr == self.stderr.plan,
    {
        OutputPlans { stdout: self.stdout.plan.clone(), stderr: self.stderr.plan.clone() }
    }
}

/// Valid references hold valid plans for the same owner and limit, and both
/// streams together stay within the limit.
pub proof fn valid_refs_hold_valid_plans(refs: OutputRefs, plans: OutputPlans, owner: OutputOwner, output_limit: u64)
    requires
        refs_valid(refs, owner, output_limit),
        plans.stdout == refs.stdout.plan,
        plans.stderr == refs.stderr.plan,
    ensures
        plans_valid(plans, owner, output_limit),
        plans.stdout.size + plans.stderr.size <= MAX_OUTPUT,
{
}

} // verus!
