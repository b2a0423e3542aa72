//! Durable, fenced cleanup inventory and metadata-only completion receipts.
//! Trusted cleanup workers verify storage retirement; this module validates
//! its binding to the frozen attempt and preserves execution history.
use crate::canonical::Json;
use crate::document::{is_same_document, same_document, Doc};
use crate::ids::OperationId;
use crate::output::{
    refs_valid, same_plans, same_ref, same_refs, same_ticket, OutputPlans, OutputRef, OutputRefs, OutputTicket,
};
use crate::store::clock::{lease_allowed, stamp, stamp_of};
use crate::store::output::{output_outcome, Column, Evidence, OutputError, OutputWork};
use crate::text::same_text;
use vstd::prelude::*;
use vstd::string::*;

verus! {

#[derive(Debug, Clone, Copy, PartialEq, Eq, Structural)]
pub struct CleanupClaim {
    pub operation_id: OperationId,
    pub revision: i64,
    pub lease_expires_at: i128,
}

/// All known upload authority for one operation. Plans without references are
/// possible orphan objects; no plans means no upload was authorized. Neither
/// case is proof of absence in storage. This record is private service state.
#[derive(Debug, PartialEq, Eq)]
pub struct CleanupManifest {
    pub version: u32,
    pub ticket: OutputTicket,
    pub plans: Option<OutputPlans>,
    pub references: Option<OutputRefs>,
    pub simulated: bool,
}

impl Clone for CleanupManifest {
    fn clone(&self) -> (r: Self)
        ensures
            r == *self,
    {
        CleanupManifest {
            version: self.version,
            ticket: self.ticket.clone(),
            plans: match &self.plans {
                Some(x) => Some(x.clone()),
                None => None,
            },
            references: match &self.references {
                Some(x) => Some(x.clone()),
                None => None,
            },
            simulated: self.simulated,
        }
    }
}

pub open spec fn same_manifest(a: CleanupManifest, b: CleanupManifest) -> bool {
    &&& a.version == b.version
    &&& same_ticket(a.ticket, b.ticket)
    &&& match (a.plans, b.plans) {
        (Some(x), Some(y)) => same_plans(x, y),
        (None, None) => true,
        _ => false,
    }
    &&& match (a.references, b.references) {
        (Some(x), Some(y)) => same_refs(x, y),
        (None, None) => true,
        _ => false,
    }
    &&& a.simulated == b.simulated
}

impl CleanupManifest {
    pub fn same(&self, other: &CleanupManifest) -> (r: bool)
        ensures
            r == same_manifest(*self, *other),
    {
        let plans: bool = match (&self.plans, &other.plans) {
            (Some(x), Some(y)) => x.same(y),
            (None, None) => true,
            _ => false,
        };
        let references: bool = match (&self.references, &other.references) {
            (Some(x), Some(y)) => x.same(y),
            (None, None) => true,
            _ => false,
        };
        self.version == other.version && self.ticket.same(&other.ticket) && plans && references && self.simulated
            == other.simulated
    }
}

/// What storage verification left of one stream: the reference that was there
/// before, if any.
#[derive(Debug, PartialEq, Eq)]
pub struct OutputRetirement {
    pub previous: Option<OutputRef>,
}

impl Clone for OutputRetirement {
    fn clone(&self) -> (r: Self)
        ensures
            r == *self,
    {
        OutputRetirement {
            previous: match &self.previous {
                Some(x) => Some(x.clone()),
                None => None,
            },
        }
    }
}

/// Accepted only from a trusted cleanup worker after storage verification.
/// Never read a customer request into cleanup authority.
#[derive(Debug, PartialEq, Eq)]
pub enum CleanupCompletion {
    NoUploadsAuthorized,
    Retired { stdout: Box<OutputRetirement>, stderr: Box<OutputRetirement> },
}

impl Clone for CleanupCompletion {
    fn clone(&self) -> (r: Self)
        ensures
            r == *self,
    {
        match self {
            CleanupCompletion::NoUploadsAuthorized => CleanupCompletion::NoUploadsAuthorized,
            CleanupCompletion::Retired { stdout, stderr } => CleanupCompletion::Retired {
                stdout: Box::new((&**stdout).clone()),
                stderr: Box::new((&**stderr).clone()),
            },
        }
    }
}

pub open spec fn retired_ref(r: OutputRetirement, reference: OutputRef) -> bool {
    r.previous matches Some(p) && same_ref(p, reference)
}

fn is_retired_ref(r: &OutputRetirement, reference: &OutputRef) -> (b: bool)
    ensures
        b == retired_ref(*r, *reference),
{
    match &r.previous {
        Some(p) => p.same(reference),
        None => false,
    }
}

/// The completion retires exactly what the manifest authorized: nothing where
/// there were no plans, else both streams, and the published references where
/// there were some. `streams_valid` is whether each stream's retirement is valid
/// for its plan.
pub open spec fn completion_fits(c: CleanupCompletion, m: CleanupManifest, streams_valid: bool) -> bool {
    match (c, m.plans) {
        (CleanupCompletion::NoUploadsAuthorized, None) => m.references is None,
        (CleanupCompletion::Retired { stdout, stderr }, Some(_)) => {
            &&& streams_valid
            &&& (m.references matches Some(refs) ==> retired_ref(*stdout, refs.stdout) && retired_ref(
                *stderr,
                refs.stderr,
            ))
        },
        _ => false,
    }
}

impl CleanupCompletion {
    pub fn validate(&self, manifest: &CleanupManifest, streams_valid: bool) -> (r: Result<(), OutputError>)
        ensures
            r == output_outcome(
                if completion_fits(*self, *manifest, streams_valid) {
                    None
                } else {
                    Some(OutputError::BadEvidence)
                },
            ),
    {
        match (self, &manifest.plans) {
            (CleanupCompletion::NoUploadsAuthorized, None) => {
                if manifest.references.is_none() {
                    Ok(())
                } else {
                    Err(OutputError::BadEvidence)
                }
            },
            (CleanupCompletion::Retired { stdout, stderr }, Some(_)) => {
                if !streams_valid {
                    return Err(OutputError::BadEvidence);
                }
                match &manifest.references {
                    Some(refs) => if is_retired_ref(stdout, &refs.stdout) && is_retired_ref(stderr, &refs.stderr) {
                        Ok(())
                    } else {
                        Err(OutputError::BadEvidence)
                    },
                    None => Ok(()),
                }
            },
            _ => Err(OutputError::BadEvidence),
        }
    }
}

#[derive(Debug)]
pub enum CleanupPreparation {
    /// Retention ended, but the persisted cleanup grace has not elapsed. The
    /// lease is released and this row cannot be claimed before this timestamp.
    Waiting { eligible_at: i128 },
    /// Eligibility is not deletion proof. Reuse exactly this manifest after
    /// failures; never mint another upload attempt or execute the command.
    Ready { manifest: Box<CleanupManifest> },
}

/// What a lease on a cleanup may be read as.
pub open spec fn cleanup_lease_read(seconds: u32, r: Result<u32, OutputError>) -> bool {
    r == (if lease_allowed(seconds) {
        Ok::<u32, OutputError>(seconds)
    } else {
        Err(OutputError::InvalidPolicy)
    })
}

/// How long a cleanup claim may be asked for.
pub fn lease(seconds: u32) -> (r: Result<u32, OutputError>)
    ensures
        cleanup_lease_read(seconds, r),
{
    if seconds < 1 || seconds > 300 {
        return Err(OutputError::InvalidPolicy);
    }
    Ok(seconds)
}

/// What a batch size may be found to be.
pub open spec fn batch_checked(limit: u32, r: Result<i64, OutputError>) -> bool {
    r == (if 1 <= limit <= 100 {
        Ok::<i64, OutputError>(limit as i64)
    } else {
        Err(OutputError::InvalidPolicy)
    })
}

/// How many operations one discovery may queue.
pub fn check_batch(limit: u32) -> (r: Result<i64, OutputError>)
    ensures
        batch_checked(limit, r),
{
    if limit < 1 || limit > 100 {
        return Err(OutputError::InvalidPolicy);
    }
    Ok(limit as i64)
}

/// The stored references that go with an output status. `count` is how many the
/// column lists, where it is a list; `refs` are they where there are two.
pub open spec fn references_fit(
    status: Seq<char>,
    count: Option<int>,
    refs: Column<OutputRefs>,
    work: OutputWork,
    e: Evidence,
) -> bool {
    if count == Some(0int) {
        status != "published"@
    } else {
        &&& count == Some(2int)
        &&& status != "uploading"@
        &&& refs is Value
        &&& refs_valid(refs->Value_0, e.owner, e.receipt.output_limit)
        &&& (work.plans matches Some(p) && same_plans(
            p,
            OutputPlans { stdout: refs->Value_0.stdout.plan, stderr: refs->Value_0.stderr.plan },
        ))
    }
}

pub open spec fn cleanable(status: Seq<char>) -> bool {
    status == "uploading"@ || status == "published"@ || status == "expired"@
}

/// The rows hold a cleanup manifest.
pub open spec fn manifest_holds(
    status: Seq<char>,
    work: Option<OutputWork>,
    count: Option<int>,
    refs: Column<OutputRefs>,
    e: Evidence,
) -> bool {
    cleanable(status) && (work matches Some(w) && references_fit(status, count, refs, w, e))
}

pub open spec fn listed_count(raw: Doc) -> Option<int> {
    match raw {
        Doc::List(items) => Some(items.len() as int),
        _ => None,
    }
}

/// What a cleanup may be made of.
pub open spec fn manifest_made(
    status: &str,
    e: &Evidence,
    work: Option<OutputWork>,
    raw: &Json,
    refs: Column<OutputRefs>,
    r: Result<CleanupManifest, OutputError>,
) -> bool {
    match r {
        Ok(m) => {
            &&& manifest_holds(status@, work, listed_count(raw@), refs, *e)
            &&& m.version == 1
            &&& m.ticket == work->0.ticket
            &&& m.plans == work->0.plans
            &&& m.references == (if listed_count(raw@) == Some(0int) {
                None
            } else {
                Some(refs->Value_0)
            })
            &&& m.simulated == work->0.simulated
        },
        Err(x) => x == OutputError::Corrupt && !manifest_holds(status@, work, listed_count(raw@), refs, *e),
    }
}

/// Everything that was ever authorized for an operation's output. `e` is the
/// evidence of the completed execution, `work` what was saved for it.
pub fn manifest(status: &str, e: &Evidence, work: Option<OutputWork>, raw: &Json, refs: Column<OutputRefs>) -> (r: Result<
    CleanupManifest,
    OutputError,
>)
    ensures
        manifest_made(status, e, work, raw, refs, r),
{
    if !same_text(status, "uploading") && !same_text(status, "published") && !same_text(status, "expired") {
        return Err(OutputError::Corrupt);
    }
    let work: OutputWork = match work {
        Some(w) => w,
        None => {
            return Err(OutputError::Corrupt);
        },
    };
    let count: usize = match raw.count() {
        Some(n) => n,
        None => {
            return Err(OutputError::Corrupt);
        },
    };
    let references: Option<OutputRefs> = if count == 0 {
        if same_text(status, "published") {
            return Err(OutputError::Corrupt);
        }
        None
    } else {
        if count != 2 || same_text(status, "uploading") {
            return Err(OutputError::Corrupt);
        }
        let refs: OutputRefs = match refs {
            Column::Value(refs) => refs,
            _ => {
                return Err(OutputError::Corrupt);
            },
        };
        if refs.validate(&e.owner, e.receipt.output_limit).is_err() {
            return Err(OutputError::Corrupt);
        }
        let plans: OutputPlans = refs.plans();
        assert(plans == (OutputPlans { stdout: refs.stdout.plan, stderr: refs.stderr.plan }));
        let same: bool = match &work.plans {
            Some(p) => p.same(&plans),
            None => false,
        };
        if !same {
            return Err(OutputError::Corrupt);
        }
        Some(refs)
    };
    Ok(
        CleanupManifest {
            version: 1,
            ticket: work.ticket,
            plans: work.plans,
            references,
            simulated: work.simulated,
        },
    )
}

/// When a manifest may be cleaned up.
pub open spec fn eligibility_read(manifest: &CleanupManifest, r: Result<i128, OutputError>) -> bool {
    match r {
        Ok(t) => stamp_of(manifest.ticket.delete_after_unix_ms) == Some(t),
        Err(e) => e == OutputError::Corrupt && stamp_of(manifest.ticket.delete_after_unix_ms) is None,
    }
}

/// When storage may be cleaned: behind the ticket's grace.
pub fn eligible_at(manifest: &CleanupManifest) -> (r: Result<i128, OutputError>)
    ensures
        eligibility_read(manifest, r),
{
    match stamp(manifest.ticket.delete_after_unix_ms) {
        Some(t) => Ok(t),
        None => Err(OutputError::Corrupt),
    }
}

/// The inventory froze exactly the current manifest and its eligibility.
pub open spec fn inventory_agrees(saved: Column<CleanupManifest>, saved_eligible: Option<i128>, current: CleanupManifest) -> bool {
    &&& (saved matches Column::Value(m) && same_manifest(m, current))
    &&& stamp_of(current.ticket.delete_after_unix_ms) is Some
    &&& saved_eligible == stamp_of(current.ticket.delete_after_unix_ms)
}

fn agrees(saved: &Column<CleanupManifest>, saved_eligible: Option<i128>, current: &CleanupManifest, eligible: i128) -> (r: bool)
    requires
        stamp_of(current.ticket.delete_after_unix_ms) == Some(eligible),
    ensures
        r == inventory_agrees(*saved, saved_eligible, *current),
{
    let frozen: bool = match saved {
        Column::Value(m) => m.same(current),
        _ => false,
    };
    let at: bool = match saved_eligible {
        Some(t) => t == eligible,
        None => false,
    };
    frozen && at
}

/// Why a completed cleanup is not valid any more. Compaction may remove the
/// original command only after revalidating the completed retirement against all
/// retained evidence. `found` is whether a completed inventory exists.
pub open spec fn completed_refusal(
    found: bool,
    saved: Column<CleanupManifest>,
    receipt: Column<CleanupCompletion>,
    saved_eligible: Option<i128>,
    current: CleanupManifest,
    streams_valid: bool,
) -> Option<OutputError> {
    if !found || !(receipt is Value) || !inventory_agrees(saved, saved_eligible, current) {
        Some(OutputError::Corrupt)
    } else if !completion_fits(receipt->Value_0, current, streams_valid) {
        Some(OutputError::BadEvidence)
    } else {
        None
    }
}

/// What checking a completed cleanup may come to.
pub open spec fn completion_validated(
    found: bool,
    saved: &Column<CleanupManifest>,
    receipt: &Column<CleanupCompletion>,
    saved_eligible: Option<i128>,
    current: &CleanupManifest,
    streams_valid: bool,
    r: Result<(), OutputError>,
) -> bool {
    r == output_outcome(completed_refusal(found, *saved, *receipt, saved_eligible, *current, streams_valid))
}

pub fn validate_completed(
    found: bool,
    saved: &Column<CleanupManifest>,
    receipt: &Column<CleanupCompletion>,
    saved_eligible: Option<i128>,
    current: &CleanupManifest,
    streams_valid: bool,
) -> (r: Result<(), OutputError>)
    ensures
        completion_validated(found, saved, receipt, saved_eligible, current, streams_valid, r),
{
    if !found {
        return Err(OutputError::Corrupt);
    }
    let receipt: &CleanupCompletion = match receipt {
        Column::Value(c) => c,
        _ => {
            return Err(OutputError::Corrupt);
        },
    };
    let eligible: i128 = match eligible_at(current) {
        Ok(t) => t,
        Err(_) => {
            return Err(OutputError::Corrupt);
        },
    };
    if !agrees(saved, saved_eligible, current, eligible) {
        return Err(OutputError::Corrupt);
    }
    receipt.validate(current, streams_valid)
}

/// What completing a cleanup does.
#[derive(Debug, Clone, Copy, PartialEq, Eq, Structural)]
pub enum CleanupStep {
    /// The very same receipt was recorded before.
    AlreadyRecorded,
    Record,
}

/// The inventory of a claimed cleanup. `completed` is whether it was completed
/// before, and `receipt` the document recorded then.
pub struct CleanupInventory {
    pub manifest: Column<CleanupManifest>,
    pub eligible_at: Option<i128>,
    pub completed: bool,
    pub receipt: Option<Json>,
}

pub open spec fn recorded_alike(receipt: Option<Json>, document: Doc) -> bool {
    receipt matches Some(d) && same_document(d@, document)
}

/// Why a cleanup is not completed.
pub open spec fn cleanup_refusal(
    inventory: CleanupInventory,
    output_status: Seq<char>,
    current: CleanupManifest,
    receipt: CleanupCompletion,
    document: Doc,
    streams_valid: bool,
    allow_simulated: bool,
) -> Option<OutputError> {
    if inventory.manifest is Absent {
        Some(OutputError::BadEvidence)
    } else if !inventory_agrees(inventory.manifest, inventory.eligible_at, current) || output_status != "expired"@ {
        Some(OutputError::Corrupt)
    } else if current.simulated && !allow_simulated {
        Some(OutputError::SimulationDenied)
    } else if !completion_fits(receipt, current, streams_valid) {
        Some(OutputError::BadEvidence)
    } else if inventory.completed && !recorded_alike(inventory.receipt, document) {
        Some(OutputError::BadEvidence)
    } else {
        None
    }
}

/// What completing a cleanup may come to.
pub open spec fn cleanup_completed(
    inventory: &CleanupInventory,
    output_status: &str,
    current: &CleanupManifest,
    receipt: &CleanupCompletion,
    document: &Json,
    streams_valid: bool,
    allow_simulated: bool,
    r: Result<CleanupStep, OutputError>,
) -> bool {
    let refusal = cleanup_refusal(
        *inventory,
        output_status@,
        *current,
        *receipt,
        document@,
        streams_valid,
        allow_simulated,
    );
    match r {
        Ok(s) => refusal is None && s == (if inventory.completed {
            CleanupStep::AlreadyRecorded
        } else {
            CleanupStep::Record
        }),
        Err(e) => refusal == Some(e),
    }
}

/// Record both streams under the same live cleanup claim. A lost commit
/// acknowledgement can be reconciled by repeating this exact receipt with the
/// same revision; a replacement worker otherwise recovers the markers. This does
/// not verify storage itself or mutate command or VM lifecycle state. `document`
/// is the receipt as it is stored.
pub fn complete_output_cleanup(
    inventory: &CleanupInventory,
    output_status: &str,
    current: &CleanupManifest,
    receipt: &CleanupCompletion,
    document: &Json,
    streams_valid: bool,
    allow_simulated: bool,
) -> (r: Result<CleanupStep, OutputError>)
    ensures
        cleanup_completed(inventory, output_status, current, receipt, document, streams_valid, allow_simulated, r),
{
    match &inventory.manifest {
        Column::Absent => {
            return Err(OutputError::BadEvidence);
        },
        _ => {},
    }
    let eligible: i128 = match eligible_at(current) {
        Ok(t) => t,
        Err(_) => {
            return Err(OutputError::Corrupt);
        },
    };
    if !agrees(&inventory.manifest, inventory.eligible_at, current, eligible) || !same_text(output_status, "expired") {
        return Err(OutputError::Corrupt);
    }
    if current.simulated && !allow_simulated {
        return Err(OutputError::SimulationDenied);
    }
    match receipt.validate(current, streams_valid) {
        Ok(_) => {},
        Err(_) => {
            return Err(OutputError::BadEvidence);
        },
    }
    if inventory.completed {
        let alike: bool = match &inventory.receipt {
            Some(d) => is_same_document(d, document),
            None => false,
        };
        if !alike {
            return Err(OutputError::BadEvidence);
        }
        return Ok(CleanupStep::AlreadyRecorded);
    }
    Ok(CleanupStep::Record)
}

/// What preparing a cleanup may come to.
pub open spec fn cleanup_prepared(
    saved: &Column<CleanupManifest>,
    saved_eligible: Option<i128>,
    current: &CleanupManifest,
    r: Result<i128, OutputError>,
) -> bool {
    match r {
        Ok(t) => {
            &&& stamp_of(current.ticket.delete_after_unix_ms) == Some(t)
            &&& (*saved is Absent || inventory_agrees(*saved, saved_eligible, *current))
        },
        Err(e) => {
            &&& e == OutputError::Corrupt
            &&& (stamp_of(current.ticket.delete_after_unix_ms) is None || (!(*saved is Absent)
                && !inventory_agrees(*saved, saved_eligible, *current)))
        },
    }
}

/// Whether an inventory may be frozen with the current manifest: it holds none
/// yet, or exactly this one.
pub fn prepare_output_cleanup(saved: &Column<CleanupManifest>, saved_eligible: Option<i128>, current: &CleanupManifest) -> (r: Result<
    i128,
    OutputError,
>)
    ensures
        cleanup_prepared(saved, saved_eligible, current, r),
{
    let eligible: i128 = match eligible_at(current) {
        Ok(t) => t,
        Err(_) => {
            return Err(OutputError::Corrupt);
        },
    };
    match saved {
        Column::Absent => Ok(eligible),
        _ => if agrees(saved, saved_eligible, current, eligible) {
            Ok(eligible)
        } else {
            Err(OutputError::Corrupt)
        },
    }
}

/// What a prepared cleanup may be answered.
pub open spec fn cleanup_answered(
    waiting: bool,
    eligible_at: i128,
    manifest: CleanupManifest,
    r: CleanupPreparation,
) -> bool {
    r == (if waiting {
        CleanupPreparation::Waiting { eligible_at }
    } else {
        CleanupPreparation::Ready { manifest: Box::new(manifest) }
    })
}

/// What the worker is told: to wait where the lease was released until the grace
/// elapses, else to clean.
pub fn preparation(waiting: bool, eligible_at: i128, manifest: CleanupManifest) -> (r: CleanupPreparation)
    ensures
        cleanup_answered(waiting, eligible_at, manifest, r),
{
    if waiting {
        CleanupPreparation::Waiting { eligible_at }
    } else {
        CleanupPreparation::Ready { manifest: Box::new(manifest) }
    }
}

/// Retirement is only ever recorded where retention had ended, of the manifest
/// that was frozen, and of simulated output only with the opt-in.
pub proof fn recorded_cleanup_is_of_the_frozen_manifest(
    inventory: CleanupInventory,
    output_status: Seq<char>,
    current: CleanupManifest,
    receipt: CleanupCompletion,
    document: Doc,
    streams_valid: bool,
    allow_simulated: bool,
)
    requires
        cleanup_refusal(inventory, output_status, current, receipt, document, streams_valid, allow_simulated) is None,
    ensures
        inventory.manifest matches Column::Value(m) && same_manifest(m, current),
        output_status == "expired"@,
        current.simulated ==> allow_simulated,
        current.plans is None <==> receipt is NoUploadsAuthorized,
{
}

} // verus!
