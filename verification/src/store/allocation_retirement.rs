//! Freeze retirement scope, renew claims and retain exact physical metadata
//! completion. Host forgetting and capacity recovery remain separate handoffs.
use crate::allocation_authority::Permit;
use crate::allocation_retirement::{
    intent_valid, same_intent, DomainClosure, Intent, Request,
};
use crate::canonical::{canonical_text, Json};
use crate::digest::{hex_encode, hex_text, sha256, sha256_of};
use crate::document::{canonical_text_is_of_the_document, doc_text, Doc};
use crate::ids::{AllocationId, OperationId};
use crate::store::clock::{lease_allowed, millis, millis_of};
use crate::store::allocation_retirement::completion::{retained, retention, MetadataEvidence};
use crate::store::allocation_retirement::forgetting::ForgetEvidence;
use crate::store::output::Column;
use crate::store::rows::{permit_of, AllocationRow, PermitRow};
use vstd::prelude::*;
use vstd::string::*;
use vstd::utf8::*;

pub mod completion;
pub mod evidence;
pub mod forgetting;
pub mod scheduling;

verus! {

#[derive(Debug, Clone, Copy, PartialEq, Eq, Structural)]
pub enum Error {
    /// Allocation retirement is not eligible.
    Ineligible,
    /// Invalid allocation retirement evidence.
    Evidence,
    /// Allocation retirement claim was lost.
    LostClaim,
    /// Invalid allocation retirement policy.
    Policy,
}

/// What comes of a check: its refusal, or nothing.
pub open spec fn retirement_outcome(refusal: Option<Error>) -> Result<(), Error> {
    match refusal {
        Some(e) => Err(e),
        None => Ok(()),
    }
}

/// A retirement as it is stored: its frozen intent, its delivery claim, what was
/// completed under it, and the claim to have the host forget it.
pub struct RetirementRow {
    pub allocation_id: AllocationId,
    pub retirement_id: OperationId,
    pub intent: Column<Intent>,
    pub reporting_epoch: i64,
    pub claim_revision: i64,
    pub lease_expires_at: Option<i128>,
    /// Whether the delivery claim is held at the moment.
    pub busy: bool,
    pub metadata_completion: Column<MetadataEvidence>,
    pub metadata_completed_at: Option<i128>,
    pub metadata_claim_expires_at: Option<i128>,
    pub forget_completion: Column<ForgetEvidence>,
    pub forgotten_at: Option<i128>,
    pub forget_claim_expires_at: Option<i128>,
    pub forget_revision: i64,
    pub forget_epoch: Option<i64>,
    pub forget_lease_expires_at: Option<i128>,
}

pub open spec fn policy_allowed(epoch: i64, seconds: u32) -> bool {
    epoch > 0 && lease_allowed(seconds)
}

/// What a retirement policy may be found to be.
pub open spec fn retirement_policy_checked(epoch: i64, seconds: u32, r: Result<(), Error>) -> bool {
    r == retirement_outcome(if policy_allowed(epoch, seconds) {
        None
    } else {
        Some(Error::Policy)
    })
}

pub fn check_policy(epoch: i64, seconds: u32) -> (r: Result<(), Error>)
    ensures
        retirement_policy_checked(epoch, seconds, r),
{
    if epoch <= 0 || seconds < 1 || seconds > 300 {
        return Err(Error::Policy);
    }
    Ok(())
}

/// What an issued permit may be read as.
pub open spec fn permit_read(p: &PermitRow, r: Result<Permit, Error>) -> bool {
    match r {
        Ok(x) => permit_of(*p) == Some(x),
        Err(e) => e == Error::Evidence && permit_of(*p) is None,
    }
}

pub fn permit(p: &PermitRow) -> (r: Result<Permit, Error>)
    ensures
        permit_read(p, r),
{
    match p.permit() {
        Some(x) => Ok(x),
        None => Err(Error::Evidence),
    }
}

/// The allocation is the one that the permit was issued for.
pub open spec fn permitted(a: AllocationRow, p: Permit) -> bool {
    &&& a.id == p.allocation
    &&& a.host_id == p.host
    &&& a.project_id == p.project
    &&& a.sandbox_id == p.sandbox
    &&& a.generation == p.generation
    &&& a.supervisor_epoch == p.original_epoch
}

/// What holding a permit against an allocation may come to.
pub open spec fn permit_matched(a: &AllocationRow, p: &Permit, r: Result<(), Error>) -> bool {
    r == retirement_outcome(if permitted(*a, *p) {
        None
    } else {
        Some(Error::Evidence)
    })
}

pub fn allocation_matches(a: &AllocationRow, p: &Permit) -> (r: Result<(), Error>)
    ensures
        permit_matched(a, p, r),
{
    if a.id != p.allocation || a.host_id != p.host || a.project_id != p.project || a.sandbox_id != p.sandbox
        || a.generation != p.generation || a.supervisor_epoch != p.original_epoch {
        return Err(Error::Evidence);
    }
    Ok(())
}

/// The digest by which an intent names its release evidence.
pub open spec fn release_digest(release: Doc) -> Seq<char> {
    hex_text(sha256_of(encode_utf8(doc_text(release)))@)
}

pub fn digest_release(release: &Json) -> (r: String)
    ensures
        r@ == release_digest(release@),
{
    proof {
        canonical_text_is_of_the_document(*release);
    }
    let text: String = canonical_text(release);
    let digest: [u8; 32] = sha256(text.as_str().as_bytes());
    hex_encode(digest.as_slice())
}

/// What proves each part of a retirement's scope: whether the release evidence,
/// the commands' and the files' were simulated, and what closes each domain.
#[derive(Debug, Clone, Copy, PartialEq, Eq, Structural)]
pub struct ScopeEvidence {
    pub release_simulated: bool,
    pub commands: DomainClosure,
    pub commands_simulated: bool,
    pub files: DomainClosure,
    pub files_simulated: bool,
}

/// The intent of a complete scope.
pub open spec fn scope_intent(
    i: Intent,
    permit: Permit,
    retirement: OperationId,
    release: Doc,
    s: ScopeEvidence,
    allow_simulated: bool,
) -> bool {
    &&& i.version == 1
    &&& i.retirement == retirement
    &&& i.permit == permit
    &&& i.commands == s.commands
    &&& i.files == s.files
    &&& i.simulated == (allow_simulated || s.release_simulated || s.commands_simulated || s.files_simulated)
    &&& i.release_evidence_sha256@ == release_digest(release)
}

/// What a retirement's scope may be frozen as.
pub open spec fn scope_frozen(
    permit: Permit,
    retirement: OperationId,
    release: &Json,
    s: &ScopeEvidence,
    allow_simulated: bool,
    r: Result<Intent, Error>,
) -> bool {
    match r {
        Ok(i) => scope_intent(i, permit, retirement, release@, *s, allow_simulated) && intent_valid(i),
        Err(e) => e == Error::Evidence && forall|i: Intent| #[trigger]
            scope_intent(i, permit, retirement, release@, *s, allow_simulated) ==> !intent_valid(i),
    }
}

/// Freeze a complete scope: nothing is open, and the release evidence is named by
/// its digest. Simulation cannot be upgraded to physical evidence later.
pub fn frozen_scope(
    permit: Permit,
    retirement: OperationId,
    release: &Json,
    s: &ScopeEvidence,
    allow_simulated: bool,
) -> (r: Result<Intent, Error>)
    ensures
        scope_frozen(permit, retirement, release, s, allow_simulated, r),
{
    let i: Intent = Intent {
        version: 1,
        retirement,
        permit,
        commands: s.commands,
        files: s.files,
        release_evidence_sha256: digest_release(release),
        simulated: allow_simulated || s.release_simulated || s.commands_simulated || s.files_simulated,
    };
    if i.validate().is_err() {
        return Err(Error::Evidence);
    }
    Ok(i)
}

/// What preparing a retirement does next.
pub enum RetirementStep {
    /// It is completed, or somebody holds its claim.
    Held,
    /// Freeze the scope of this permit, under this identity where one was retained.
    Proceed { permit: Permit, retirement: Option<OperationId> },
}

/// What the rows of an allocation come to. `issued` is the permit where the host
/// is at the epoch, requires launch authority and has registered the serial.
pub open spec fn preparation(
    a: Option<AllocationRow>,
    issued: Option<PermitRow>,
    old: Option<RetirementRow>,
    epoch: i64,
) -> Result<RetirementStep, Error> {
    if a is None || issued is None {
        Err(Error::Ineligible)
    } else {
        match permit_of(issued->0) {
            None => Err(Error::Evidence),
            Some(p) => if !permitted(a->0, p) || p.original_epoch > epoch {
                Err(Error::Evidence)
            } else {
                match old {
                    None => Ok(RetirementStep::Proceed { permit: p, retirement: None }),
                    Some(r) => match retention(r, p, a->0) {
                        Err(e) => Err(e),
                        Ok(true) => Ok(RetirementStep::Held),
                        Ok(false) => if r.busy {
                            Ok(RetirementStep::Held)
                        } else {
                            Ok(RetirementStep::Proceed { permit: p, retirement: Some(r.retirement_id) })
                        },
                    },
                }
            },
        }
    }
}

pub open spec fn allocation_of(a: Option<&AllocationRow>) -> Option<AllocationRow> {
    match a {
        Some(x) => Some(*x),
        None => None,
    }
}

pub open spec fn permit_row_of(p: Option<&PermitRow>) -> Option<PermitRow> {
    match p {
        Some(x) => Some(*x),
        None => None,
    }
}

pub open spec fn retirement_of(r: Option<&RetirementRow>) -> Option<RetirementRow> {
    match r {
        Some(x) => Some(*x),
        None => None,
    }
}

/// What may be done to retire an allocation.
pub open spec fn retirement_prepared(
    a: Option<&AllocationRow>,
    issued: Option<&PermitRow>,
    old: Option<&RetirementRow>,
    epoch: i64,
    r: Result<RetirementStep, Error>,
) -> bool {
    r == preparation(allocation_of(a), permit_row_of(issued), retirement_of(old), epoch)
}

/// Decide whether an allocation's retirement may be prepared. A held claim holds
/// everybody else back; a retry retains the original identity.
pub fn prepare_allocation_retirement(
    a: Option<&AllocationRow>,
    issued: Option<&PermitRow>,
    old: Option<&RetirementRow>,
    epoch: i64,
) -> (r: Result<RetirementStep, Error>)
    ensures
        retirement_prepared(a, issued, old, epoch, r),
{
    let a: &AllocationRow = match a {
        Some(a) => a,
        None => {
            return Err(Error::Ineligible);
        },
    };
    let issued: &PermitRow = match issued {
        Some(p) => p,
        None => {
            return Err(Error::Ineligible);
        },
    };
    let p: Permit = match permit(issued) {
        Ok(p) => p,
        Err(e) => {
            return Err(e);
        },
    };
    match allocation_matches(a, &p) {
        Ok(_) => {},
        Err(e) => {
            return Err(e);
        },
    }
    if p.original_epoch > epoch {
        return Err(Error::Evidence);
    }
    match old {
        None => Ok(RetirementStep::Proceed { permit: p, retirement: None }),
        Some(row) => match retained(row, &p, a) {
            Err(e) => Err(e),
            Ok(Some(_)) => Ok(RetirementStep::Held),
            Ok(None) => if row.busy {
                Ok(RetirementStep::Held)
            } else {
                Ok(RetirementStep::Proceed { permit: p, retirement: Some(row.retirement_id) })
            },
        },
    }
}

/// What holding a scope against the kept one may come to.
pub open spec fn scope_confirmed(old: Option<&RetirementRow>, intent: &Intent, r: Result<(), Error>) -> bool {
    r == retirement_outcome(
        if old matches Some(row) && !(row.intent matches Column::Value(i) && same_intent(i, *intent)) {
            Some(Error::Evidence)
        } else {
            None
        },
    )
}

/// A retry must freeze exactly the scope that was frozen before.
pub fn confirm_scope(old: Option<&RetirementRow>, intent: &Intent) -> (r: Result<(), Error>)
    ensures
        scope_confirmed(old, intent, r),
{
    match old {
        None => Ok(()),
        Some(row) => match &row.intent {
            Column::Value(i) => if i.same(intent) {
                Ok(())
            } else {
                Err(Error::Evidence)
            },
            _ => Err(Error::Evidence),
        },
    }
}

/// What a host may be asked to retire.
pub open spec fn retirement_claimed(
    intent: Intent,
    epoch: i64,
    revision: i64,
    expires_at: i128,
    r: Result<Request, Error>,
) -> bool {
    match r {
        Ok(q) => q.intent == intent && q.reporting_epoch == epoch && q.revision == revision && Some(
            q.expires_unix_ms,
        ) == millis_of(expires_at),
        Err(e) => e == Error::Evidence && millis_of(expires_at) is None,
    }
}

/// The request of a renewed claim: its envelope cannot alter the frozen scope.
pub fn claimed_request(intent: Intent, epoch: i64, revision: i64, expires_at: i128) -> (r: Result<Request, Error>)
    ensures
        retirement_claimed(intent, epoch, revision, expires_at, r),
{
    match millis(expires_at) {
        Some(expires_unix_ms) => Ok(Request { intent, reporting_epoch: epoch, revision, expires_unix_ms }),
        None => Err(Error::Evidence),
    }
}

/// Two freezings of the same evidence under the same identity are of the same
/// scope, so a retry confirms it.
pub proof fn frozen_scopes_agree(
    x: Intent,
    y: Intent,
    permit: Permit,
    retirement: OperationId,
    release: Doc,
    s: ScopeEvidence,
    allow_simulated: bool,
)
    requires
        scope_intent(x, permit, retirement, release, s, allow_simulated),
        scope_intent(y, permit, retirement, release, s, allow_simulated),
    ensures
        same_intent(x, y),
{
}

/// An intent is physical only where nothing simulated went into it.
pub proof fn simulation_is_never_upgraded(
    i: Intent,
    permit: Permit,
    retirement: OperationId,
    release: Doc,
    s: ScopeEvidence,
    allow_simulated: bool,
)
    requires
        scope_intent(i, permit, retirement, release, s, allow_simulated),
        !i.simulated,
    ensures
        !s.release_simulated && !s.commands_simulated && !s.files_simulated && !allow_simulated,
{
}

} // verus!
