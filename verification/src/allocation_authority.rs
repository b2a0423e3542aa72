//! Bounded allocation authority state machine, not a persistence or release proof.
//!
//! A trusted issuer registers contiguous serials before Create may use them.
//! Retained owners are explicit exceptions below the high-water mark. Forgetting
//! a completed owner therefore cannot make its serial admissible again, and an
//! older live owner does not block reclamation of newer allocations.
//!
//! Integration must durably commit transitions under cross-process launch
//! serialization. Callers independently verify consumer closure, physical cleanup
//! and database acknowledgement before invoking the corresponding transitions.
//! Host retirement uses fencing for deletion. Completion and forgetting remain
//! caller-verified components until the controller handoff is integrated.
use crate::allocation_retirement::{intent_digest, Intent};
use crate::guest_model::copy_items;
use crate::ids::{
    is_v7, valid_uuid, AllocationId, HostId, Id, OperationId, ProjectId, SandboxId,
};
use crate::json::{
    compact, decimal, decimal_text, id_json, lemma_byte_numeral_compact, lemma_compact_bytes,
    lemma_compact_cat, lemma_id_json_compact, lemma_numeral_compact, quoted, signed_decimal,
    signed_text,
};
use vstd::prelude::*;
use vstd::string::*;
use vstd::utf8::*;

verus! {

pub const MAX_ENTRIES: usize = 1024;

pub const MAX_BATCH: usize = 32;

pub const MAX_BYTES: usize = 1048576;

pub const MAX_SERIAL: u64 = 9223372036854775807;

#[derive(Debug, Clone, Copy, PartialEq, Eq, Structural)]
pub enum Error {
    /// Invalid authority state or request.
    Invalid,
    /// Allocation authority ownership mismatch.
    Ownership,
    /// Allocation authority capacity exhausted.
    Capacity,
    /// Registration is not the next contiguous batch.
    RegistrationOrder,
    /// Serial is closed; this is not release or absence evidence.
    Closed,
    /// Serial has not been registered.
    Unregistered,
    /// Allocation authority transition conflicts.
    Conflict,
}

/// Immutable identity issued before host admission. Knowing it grants no access.
#[derive(Debug, Clone, Copy, PartialEq, Eq, Structural)]
pub struct Permit {
    pub host: HostId,
    pub project: ProjectId,
    pub sandbox: SandboxId,
    pub allocation: AllocationId,
    pub create_operation: OperationId,
    pub generation: i64,
    pub original_epoch: i64,
    pub serial: u64,
}

pub open spec fn permit_valid(p: Permit) -> bool {
    &&& is_v7(p.host.value)
    &&& is_v7(p.project.value)
    &&& is_v7(p.sandbox.value)
    &&& is_v7(p.allocation.value)
    &&& is_v7(p.create_operation.value)
    &&& p.generation > 0
    &&& p.original_epoch > 0
    &&& 0 < p.serial <= MAX_SERIAL
}

/// The typed encoding of a permit: its fields in declaration order.
#[verifier::opaque]
pub open spec fn permit_json(p: Permit) -> Seq<char> {
    "{\"host\":"@ + id_json("hst"@, p.host.value) + ",\"project\":"@ + id_json("prj"@, p.project.value)
        + ",\"sandbox\":"@ + id_json("sbx"@, p.sandbox.value) + ",\"allocation\":"@ + id_json(
        "alc"@,
        p.allocation.value,
    ) + ",\"create_operation\":"@ + id_json("op"@, p.create_operation.value) + ",\"generation\":"@ + signed_decimal(
        p.generation as int,
    ) + ",\"original_epoch\":"@ + signed_decimal(p.original_epoch as int) + ",\"serial\":"@ + decimal(p.serial as nat)
        + "}"@
}

impl Permit {
    pub fn validate(&self) -> (r: Result<(), Error>)
        ensures
            r == (if permit_valid(*self) {
                Ok::<(), Error>(())
            } else {
                Err(Error::Invalid)
            }),
    {
        if !valid_uuid(self.host.uuid()) || !valid_uuid(self.project.uuid()) || !valid_uuid(self.sandbox.uuid())
            || !valid_uuid(self.allocation.uuid()) || !valid_uuid(self.create_operation.uuid()) {
            return Err(Error::Invalid);
        }
        if self.generation <= 0 || self.original_epoch <= 0 || self.serial == 0 || self.serial > MAX_SERIAL {
            return Err(Error::Invalid);
        }
        Ok(())
    }

    pub(crate) fn render(&self) -> (r: String)
        ensures
            r@ == permit_json(*self),
    {
        proof {
            reveal(permit_json);
        }
        let mut out: String = "{\"host\":".to_owned();
        out.append(quoted(self.host.to_string().as_str()).as_str());
        out.append(",\"project\":");
        out.append(quoted(self.project.to_string().as_str()).as_str());
        out.append(",\"sandbox\":");
        out.append(quoted(self.sandbox.to_string().as_str()).as_str());
        out.append(",\"allocation\":");
        out.append(quoted(self.allocation.to_string().as_str()).as_str());
        out.append(",\"create_operation\":");
        out.append(quoted(self.create_operation.to_string().as_str()).as_str());
        out.append(",\"generation\":");
        out.append(signed_text(self.generation).as_str());
        out.append(",\"original_epoch\":");
        out.append(signed_text(self.original_epoch).as_str());
        out.append(",\"serial\":");
        out.append(decimal_text(self.serial).as_str());
        out.append("}");
        out
    }
}

#[derive(Debug, Clone, Copy, PartialEq, Eq)]
pub enum State {
    Active {},
    Fenced { retirement: OperationId },
    Complete { retirement: OperationId, intent_sha256: [u8; 32] },
}

/// The retirement that a denied entry belongs to is a version 7 identity.
pub open spec fn state_valid(s: State) -> bool {
    match s {
        State::Active {} => true,
        State::Fenced { retirement } => is_v7(retirement.value),
        State::Complete { retirement, intent_sha256 } => is_v7(retirement.value),
    }
}

/// Numbers separated by commas.
pub open spec fn byte_list(bytes: Seq<u8>) -> Seq<char>
    decreases bytes.len(),
{
    if bytes.len() == 0 {
        Seq::empty()
    } else if bytes.len() == 1 {
        decimal(bytes[0] as nat)
    } else {
        byte_list(bytes.drop_last()) + ","@ + decimal(bytes.last() as nat)
    }
}

/// A byte string as a JSON array of numbers.
#[verifier::opaque]
pub open spec fn bytes_json(bytes: Seq<u8>) -> Seq<char> {
    "["@ + byte_list(bytes) + "]"@
}

pub(crate) fn bytes_text(bytes: &[u8]) -> (r: String)
    ensures
        r@ == bytes_json(bytes@),
{
    proof {
        reveal(bytes_json);
    }
    let mut list: String = String::new();
    let mut i: usize = 0;
    while i < bytes.len()
        invariant
            i <= bytes@.len(),
            list@ == byte_list(bytes@.take(i as int)),
        decreases bytes@.len() - i,
    {
        proof {
            assert(bytes@.take(i + 1).drop_last() =~= bytes@.take(i as int));
            assert(bytes@.take(i + 1).last() == bytes@[i as int]);
        }
        if i > 0 {
            list.append(",");
        }
        list.append(decimal_text(bytes[i] as u64).as_str());
        proof {
            if i == 0 {
                assert(list@ =~= decimal(bytes@[0] as nat));
            }
        }
        i = i + 1;
    }
    assert(bytes@.take(i as int) =~= bytes@);
    let mut out: String = "[".to_owned();
    out.append(list.as_str());
    out.append("]");
    out
}

#[verifier::opaque]
pub open spec fn state_json(s: State) -> Seq<char> {
    match s {
        State::Active {} => "{\"state\":\"active\"}"@,
        State::Fenced { retirement } => "{\"state\":\"fenced\",\"retirement\":"@ + id_json("op"@, retirement.value)
            + "}"@,
        State::Complete { retirement, intent_sha256 } => "{\"state\":\"complete\",\"retirement\":"@ + id_json(
            "op"@,
            retirement.value,
        ) + ",\"intent_sha256\":"@ + bytes_json(intent_sha256@) + "}"@,
    }
}

/// Equality of two digests.
pub(crate) fn same_digest(a: &[u8; 32], b: &[u8; 32]) -> (r: bool)
    ensures
        r == (a@ == b@),
        r == (*a == *b),
{
    let mut i: usize = 0;
    while i < 32
        invariant
            i <= 32,
            forall|j: int| 0 <= j < i ==> a@[j] == b@[j],
        decreases 32 - i,
    {
        if a[i] != b[i] {
            return false;
        }
        i = i + 1;
    }
    assert(a@ =~= b@);
    assert(*a =~= *b);
    true
}

impl State {
    fn same(&self, other: &State) -> (r: bool)
        ensures
            r == (*self == *other),
    {
        match (self, other) {
            (State::Active {}, State::Active {}) => true,
            (State::Fenced { retirement: a }, State::Fenced { retirement: b }) => *a == *b,
            (
                State::Complete { retirement: a, intent_sha256: x },
                State::Complete { retirement: b, intent_sha256: y },
            ) => *a == *b && same_digest(x, y),
            _ => false,
        }
    }

    fn valid(&self) -> (r: bool)
        ensures
            r == state_valid(*self),
    {
        match self {
            State::Active {} => true,
            State::Fenced { retirement } => valid_uuid(retirement.uuid()),
            State::Complete { retirement, .. } => valid_uuid(retirement.uuid()),
        }
    }

    fn render(&self) -> (r: String)
        ensures
            r@ == state_json(*self),
    {
        proof {
            reveal(state_json);
        }
        match self {
            State::Active {} => "{\"state\":\"active\"}".to_owned(),
            State::Fenced { retirement } => {
                let mut out: String = "{\"state\":\"fenced\",\"retirement\":".to_owned();
                out.append(quoted(retirement.to_string().as_str()).as_str());
                out.append("}");
                out
            },
            State::Complete { retirement, intent_sha256 } => {
                let mut out: String = "{\"state\":\"complete\",\"retirement\":".to_owned();
                out.append(quoted(retirement.to_string().as_str()).as_str());
                out.append(",\"intent_sha256\":");
                out.append(bytes_text(intent_sha256.as_slice()).as_str());
                out.append("}");
                out
            },
        }
    }
}

#[derive(Debug, Clone, Copy, PartialEq, Eq)]
pub struct Entry {
    pub permit: Permit,
    pub state: State,
}

#[verifier::opaque]
pub open spec fn entry_json(e: Entry) -> Seq<char> {
    "{\"permit\":"@ + permit_json(e.permit) + ",\"state\":"@ + state_json(e.state) + "}"@
}

pub open spec fn entry_list(entries: Seq<Entry>) -> Seq<char>
    decreases entries.len(),
{
    if entries.len() == 0 {
        Seq::empty()
    } else if entries.len() == 1 {
        entry_json(entries[0])
    } else {
        entry_list(entries.drop_last()) + ","@ + entry_json(entries.last())
    }
}

/// What an authority keeps in storage.
#[derive(Debug, PartialEq, Eq)]
pub struct Saved {
    pub version: u32,
    pub host: HostId,
    pub through: u64,
    pub entries: Vec<Entry>,
}

impl Clone for Saved {
    fn clone(&self) -> (r: Self)
        ensures
            r == (Saved { entries: r.entries, ..*self }),
            r.entries@ == self.entries@,
    {
        Saved { version: self.version, host: self.host, through: self.through, entries: copy_items(&self.entries) }
    }
}

#[verifier::opaque]
pub open spec fn saved_json(version: u32, s: Ledger) -> Seq<char> {
    "{\"version\":"@ + decimal(version as nat) + ",\"host\":"@ + id_json("hst"@, s.host.value) + ",\"through\":"@
        + decimal(s.through as nat) + ",\"entries\":["@ + entry_list(s.entries) + "]}"@
}

/// The mathematical value of an authority: its host, the highest serial ever
/// registered, and the owners still retained.
pub ghost struct Ledger {
    pub host: HostId,
    pub through: u64,
    pub entries: Seq<Entry>,
}

/// No allocation, creating operation or sandbox generation owns two entries.
pub open spec fn distinct_owners(a: Permit, b: Permit) -> bool {
    &&& a.allocation != b.allocation
    &&& a.create_operation != b.create_operation
    &&& !(a.sandbox == b.sandbox && a.generation == b.generation)
}

/// The invariant of an authority.
pub open spec fn ledger_valid(s: Ledger) -> bool {
    &&& is_v7(s.host.value)
    &&& s.through <= MAX_SERIAL
    &&& s.entries.len() <= MAX_ENTRIES
    &&& forall|i: int|
        0 <= i < s.entries.len() ==> {
            &&& permit_valid((#[trigger] s.entries[i]).permit)
            &&& s.entries[i].permit.host == s.host
            &&& s.entries[i].permit.serial <= s.through
            &&& state_valid(s.entries[i].state)
        }
    &&& forall|i: int, j: int|
        0 <= i < j < s.entries.len() ==> {
            &&& (#[trigger] s.entries[i]).permit.serial < (#[trigger] s.entries[j]).permit.serial
            &&& distinct_owners(s.entries[i].permit, s.entries[j].permit)
        }
}

/// The entry holding a serial.
pub open spec fn holds(s: Ledger, i: int, serial: u64) -> bool {
    0 <= i < s.entries.len() && s.entries[i].permit.serial == serial
}

/// Where a permit's entry is, or why it has none: the identity is malformed or
/// of another host; another owner holds the serial; the serial was registered
/// and is no longer retained; the serial was never registered.
pub open spec fn lookup(s: Ledger, permit: Permit) -> Result<int, Error> {
    if !permit_valid(permit) {
        Err(Error::Invalid)
    } else if permit.host != s.host {
        Err(Error::Ownership)
    } else if exists|i: int| holds(s, i, permit.serial) {
        let i = choose|i: int| holds(s, i, permit.serial);
        if s.entries[i].permit == permit {
            Ok(i)
        } else {
            Err(Error::Ownership)
        }
    } else if permit.serial <= s.through {
        Err(Error::Closed)
    } else {
        Err(Error::Unregistered)
    }
}

/// What stored entries are refused for, the first offending entry deciding.
pub open spec fn entries_check(host: HostId, through: u64, entries: Seq<Entry>) -> Result<(), Error>
    decreases entries.len(),
{
    if entries.len() == 0 {
        Ok(())
    } else {
        let e = entries.last();
        let before = entries.drop_last();
        match entries_check(host, through, before) {
            Err(error) => Err(error),
            Ok(_) => if !permit_valid(e.permit) {
                Err(Error::Invalid)
            } else if e.permit.host != host {
                Err(Error::Ownership)
            } else if (before.len() > 0 && e.permit.serial <= before.last().permit.serial) || e.permit.serial > through
                || !(forall|j: int| 0 <= j < before.len() ==> distinct_owners((#[trigger] before[j]).permit, e.permit))
                || !state_valid(e.state) {
                Err(Error::Invalid)
            } else {
                Ok(())
            },
        }
    }
}

/// What `decode` makes of the stored ledger of the given version.
pub open spec fn restored(version: u32, s: Ledger, host: HostId, minimum_through: u64) -> Result<Ledger, Error> {
    if !is_v7(host.value) || version != 1 || s.through > MAX_SERIAL || s.through < minimum_through || s.entries.len()
        > MAX_ENTRIES {
        Err(Error::Invalid)
    } else if s.host != host {
        Err(Error::Ownership)
    } else {
        match entries_check(host, s.through, s.entries) {
            Ok(_) => Ok(s),
            Err(error) => Err(error),
        }
    }
}

/// What a batch is refused for before the ledger is looked at, the first
/// offending permit deciding.
pub open spec fn batch_check(host: HostId, permits: Seq<Permit>) -> Result<(), Error>
    decreases permits.len(),
{
    if permits.len() == 0 {
        Ok(())
    } else {
        let p = permits.last();
        let before = permits.drop_last();
        match batch_check(host, before) {
            Err(error) => Err(error),
            Ok(_) => if !permit_valid(p) {
                Err(Error::Invalid)
            } else if p.host != host {
                Err(Error::Ownership)
            } else if before.len() > 0 && before.last().serial + 1 != p.serial {
                Err(Error::RegistrationOrder)
            } else {
                Ok(())
            },
        }
    }
}

/// Whether every permit of a retried batch is retained, and otherwise what the
/// first that is not is refused for.
pub open spec fn retained_check(s: Ledger, permits: Seq<Permit>) -> Result<(), Error>
    decreases permits.len(),
{
    if permits.len() == 0 {
        Ok(())
    } else {
        match retained_check(s, permits.drop_last()) {
            Err(error) => Err(error),
            Ok(_) => match lookup(s, permits.last()) {
                Ok(_) => Ok(()),
                Err(error) => Err(error),
            },
        }
    }
}

pub open spec fn activated(permits: Seq<Permit>) -> Seq<Entry> {
    permits.map_values(|p: Permit| Entry { permit: p, state: State::Active {} })
}

/// The ledger with a fresh batch appended.
pub open spec fn extended(s: Ledger, permits: Seq<Permit>) -> Ledger {
    Ledger { host: s.host, through: permits.last().serial, entries: s.entries + activated(permits) }
}

/// What `register` does.
pub open spec fn registered(s: Ledger, permits: Seq<Permit>) -> Result<Ledger, Error> {
    if permits.len() == 0 || permits.len() > MAX_BATCH {
        Err(Error::Invalid)
    } else {
        match batch_check(s.host, permits) {
            Err(error) => Err(error),
            Ok(_) => if permits[0].serial <= s.through {
                match retained_check(s, permits) {
                    Ok(_) => Ok(s),
                    Err(error) => Err(error),
                }
            } else if s.through + 1 != permits[0].serial {
                Err(Error::RegistrationOrder)
            } else if s.entries.len() + permits.len() > MAX_ENTRIES {
                Err(Error::Capacity)
            } else if !ledger_valid(extended(s, permits)) {
                Err(Error::Invalid)
            } else {
                Ok(extended(s, permits))
            },
        }
    }
}

pub open spec fn with_state(s: Ledger, i: int, state: State) -> Ledger {
    Ledger { entries: s.entries.update(i, Entry { permit: s.entries[i].permit, state }), ..s }
}

/// What `fence` does.
pub open spec fn fenced(s: Ledger, permit: Permit, retirement: OperationId) -> Result<Ledger, Error> {
    if !is_v7(retirement.value) {
        Err(Error::Invalid)
    } else {
        match lookup(s, permit) {
            Err(error) => Err(error),
            Ok(i) => match s.entries[i].state {
                State::Active {} => Ok(with_state(s, i, State::Fenced { retirement })),
                State::Fenced { retirement: r } => if r == retirement {
                    Ok(s)
                } else {
                    Err(Error::Conflict)
                },
                State::Complete { retirement: r, intent_sha256 } => if r == retirement {
                    Ok(s)
                } else {
                    Err(Error::Conflict)
                },
            },
        }
    }
}

/// The state that completing an intent leaves: bound to the digest of the whole
/// frozen scope. A malformed or simulated intent completes nothing.
pub open spec fn completion_of(intent: Intent) -> Result<State, Error> {
    match intent_digest(intent) {
        Ok(intent_sha256) => if intent.simulated {
            Err(Error::Invalid)
        } else {
            Ok(State::Complete { retirement: intent.retirement, intent_sha256 })
        },
        Err(_) => Err(Error::Invalid),
    }
}

/// What `complete` does.
pub open spec fn completed_by(s: Ledger, intent: Intent) -> Result<Ledger, Error> {
    match completion_of(intent) {
        Err(error) => Err(error),
        Ok(complete) => match lookup(s, intent.permit) {
            Err(error) => Err(error),
            Ok(i) => if s.entries[i].state == (State::Fenced { retirement: intent.retirement }) {
                Ok(with_state(s, i, complete))
            } else if s.entries[i].state == complete {
                Ok(s)
            } else {
                Err(Error::Conflict)
            },
        },
    }
}

/// What `completed` answers: where the completed entry is.
pub open spec fn completed_at(s: Ledger, intent: Intent) -> Result<int, Error> {
    match completion_of(intent) {
        Err(error) => Err(error),
        Ok(complete) => match lookup(s, intent.permit) {
            Err(error) => Err(error),
            Ok(i) => if s.entries[i].state == complete {
                Ok(i)
            } else {
                Err(Error::Conflict)
            },
        },
    }
}

/// What `forget` does.
pub open spec fn forgotten(s: Ledger, intent: Intent) -> Result<Ledger, Error> {
    match completed_at(s, intent) {
        Err(error) => Err(error),
        Ok(i) => Ok(Ledger { entries: s.entries.remove(i), ..s }),
    }
}

/// A transition returned `r` and left `after`: either it succeeded and left the
/// ledger that it specifies, or it failed and left the ledger as it was.
pub open spec fn transition(before: Ledger, after: Ledger, r: Result<(), Error>, specified: Result<Ledger, Error>) -> bool {
    match specified {
        Ok(next) => r == Ok::<(), Error>(()) && after == next,
        Err(error) => r == Err::<(), Error>(error) && after == before,
    }
}

/// Transitions are all-or-nothing in memory. Persistence/locking are the caller's
/// responsibility; failure to persist must prevent acknowledgement and launch.
#[derive(Debug, PartialEq, Eq)]
pub struct Authority {
    saved: Saved,
}

impl Clone for Authority {
    fn clone(&self) -> (r: Self)
        ensures
            r@ == self@,
    {
        proof {
            use_type_invariant(self);
        }
        let saved: Saved = self.saved.clone();
        assert(ledger_of(saved) == ledger_of(self.saved));
        Authority { saved }
    }
}

impl View for Authority {
    type V = Ledger;

    closed spec fn view(&self) -> Ledger {
        Ledger { host: self.saved.host, through: self.saved.through, entries: self.saved.entries@ }
    }
}

pub open spec fn ledger_of(saved: Saved) -> Ledger {
    Ledger { host: saved.host, through: saved.through, entries: saved.entries@ }
}

pub(crate) proof fn lemma_holds_unique(s: Ledger, i: int, j: int, serial: u64)
    requires
        ledger_valid(s),
        holds(s, i, serial),
        holds(s, j, serial),
    ensures
        i == j,
{
    if i < j {
        assert(s.entries[i].permit.serial < s.entries[j].permit.serial);
    } else if j < i {
        assert(s.entries[j].permit.serial < s.entries[i].permit.serial);
    }
}

/// A permit's own entry is where lookup finds it.
pub(crate) proof fn lemma_lookup_at(s: Ledger, i: int)
    requires
        ledger_valid(s),
        0 <= i < s.entries.len(),
    ensures
        lookup(s, s.entries[i].permit) == Ok::<int, Error>(i),
{
    let p = s.entries[i].permit;
    assert(holds(s, i, p.serial));
    let c = choose|c: int| holds(s, c, p.serial);
    lemma_holds_unique(s, i, c, p.serial);
}

/// Stored entries pass the check exactly where they meet the invariant.
pub(crate) proof fn lemma_entries_check(host: HostId, through: u64, entries: Seq<Entry>)
    ensures
        entries_check(host, through, entries) is Ok <==> {
            &&& forall|i: int|
                0 <= i < entries.len() ==> {
                    &&& permit_valid((#[trigger] entries[i]).permit)
                    &&& entries[i].permit.host == host
                    &&& entries[i].permit.serial <= through
                    &&& state_valid(entries[i].state)
                }
            &&& forall|i: int, j: int|
                0 <= i < j < entries.len() ==> {
                    &&& (#[trigger] entries[i]).permit.serial < (#[trigger] entries[j]).permit.serial
                    &&& distinct_owners(entries[i].permit, entries[j].permit)
                }
        },
    decreases entries.len(),
{
    if entries.len() > 0 {
        let before = entries.drop_last();
        let n = before.len() as int;
        lemma_entries_check(host, through, before);
        assert(forall|i: int| 0 <= i < n ==> before[i] == entries[i]);
        assert(entries.last() == entries[n]);
        if entries_check(host, through, entries) is Ok {
            assert forall|i: int, j: int| 0 <= i < j < entries.len() implies {
                &&& (#[trigger] entries[i]).permit.serial < (#[trigger] entries[j]).permit.serial
                &&& distinct_owners(entries[i].permit, entries[j].permit)
            } by {
                assert(before[i] == entries[i]);
                if j == n {
                    assert(distinct_owners(before[i].permit, entries[n].permit));
                    if i < n - 1 {
                        assert(before[i].permit.serial < before[n - 1].permit.serial);
                    }
                } else {
                    assert(before[j] == entries[j]);
                }
            }
            assert forall|i: int| 0 <= i < entries.len() implies {
                &&& permit_valid((#[trigger] entries[i]).permit)
                &&& entries[i].permit.host == host
                &&& entries[i].permit.serial <= through
                &&& state_valid(entries[i].state)
            } by {
                if i < n {
                    assert(before[i] == entries[i]);
                }
            }
        } else if (forall|i: int|
            0 <= i < entries.len() ==> {
                &&& permit_valid((#[trigger] entries[i]).permit)
                &&& entries[i].permit.host == host
                &&& entries[i].permit.serial <= through
                &&& state_valid(entries[i].state)
            }) && (forall|i: int, j: int|
            0 <= i < j < entries.len() ==> {
                &&& (#[trigger] entries[i]).permit.serial < (#[trigger] entries[j]).permit.serial
                &&& distinct_owners(entries[i].permit, entries[j].permit)
            }) {
            assert forall|i: int, j: int| 0 <= i < j < before.len() implies {
                &&& (#[trigger] before[i]).permit.serial < (#[trigger] before[j]).permit.serial
                &&& distinct_owners(before[i].permit, before[j].permit)
            } by {
                assert(before[i] == entries[i] && before[j] == entries[j]);
            }
            assert(entries_check(host, through, before) is Ok);
            assert(permit_valid(entries[n].permit));
            assert forall|j: int| 0 <= j < before.len() implies distinct_owners((#[trigger] before[j]).permit, entries[n].permit) by {
                assert(before[j] == entries[j]);
            }
            if n > 0 {
                assert(entries[n - 1].permit.serial < entries[n].permit.serial);
            }
            assert(false);
        }
    }
}

proof fn lemma_entries_prefix_err(host: HostId, through: u64, entries: Seq<Entry>, k: int)
    requires
        0 <= k <= entries.len(),
        entries_check(host, through, entries.take(k)) is Err,
    ensures
        entries_check(host, through, entries) == entries_check(host, through, entries.take(k)),
    decreases entries.len(),
{
    if k == entries.len() {
        assert(entries.take(k) =~= entries);
    } else {
        assert(entries.drop_last().take(k) =~= entries.take(k));
        lemma_entries_prefix_err(host, through, entries.drop_last(), k);
    }
}

proof fn lemma_batch_prefix_err(host: HostId, permits: Seq<Permit>, k: int)
    requires
        0 <= k <= permits.len(),
        batch_check(host, permits.take(k)) is Err,
    ensures
        batch_check(host, permits) == batch_check(host, permits.take(k)),
    decreases permits.len(),
{
    if k == permits.len() {
        assert(permits.take(k) =~= permits);
    } else {
        assert(permits.drop_last().take(k) =~= permits.take(k));
        lemma_batch_prefix_err(host, permits.drop_last(), k);
    }
}

proof fn lemma_retained_prefix_err(s: Ledger, permits: Seq<Permit>, k: int)
    requires
        0 <= k <= permits.len(),
        retained_check(s, permits.take(k)) is Err,
    ensures
        retained_check(s, permits) == retained_check(s, permits.take(k)),
    decreases permits.len(),
{
    if k == permits.len() {
        assert(permits.take(k) =~= permits);
    } else {
        assert(permits.drop_last().take(k) =~= permits.take(k));
        lemma_retained_prefix_err(s, permits.drop_last(), k);
    }
}

/// A batch that passes is valid, of the host, and contiguous.
pub(crate) proof fn lemma_batch_ok(host: HostId, permits: Seq<Permit>)
    requires
        batch_check(host, permits) is Ok,
    ensures
        forall|i: int|
            0 <= i < permits.len() ==> {
                &&& permit_valid(#[trigger] permits[i])
                &&& permits[i].host == host
                &&& permits[i].serial == permits[0].serial + i
            },
    decreases permits.len(),
{
    if permits.len() > 0 {
        let before = permits.drop_last();
        lemma_batch_ok(host, before);
        assert(forall|i: int| 0 <= i < before.len() ==> before[i] == permits[i]);
        assert forall|i: int| 0 <= i < permits.len() implies {
            &&& permit_valid(#[trigger] permits[i])
            &&& permits[i].host == host
            &&& permits[i].serial == permits[0].serial + i
        } by {
            if i < before.len() {
                assert(before[i] == permits[i]);
                assert(before[0] == permits[0]);
            } else if before.len() > 0 {
                assert(before[i - 1] == permits[i - 1]);
                assert(before[0] == permits[0]);
            }
        }
    }
}

impl Saved {
    fn render(&self) -> (r: String)
        ensures
            r@ == saved_json(self.version, ledger_of(*self)),
    {
        proof {
            reveal(saved_json);
            reveal(entry_json);
        }
        let mut list: String = String::new();
        let mut i: usize = 0;
        while i < self.entries.len()
            invariant
                i <= self.entries@.len(),
                list@ == entry_list(self.entries@.take(i as int)),
            decreases self.entries@.len() - i,
        {
            proof {
                assert(self.entries@.take(i + 1).drop_last() =~= self.entries@.take(i as int));
                assert(self.entries@.take(i + 1).last() == self.entries@[i as int]);
            }
            if i > 0 {
                list.append(",");
            }
            let entry: &Entry = &self.entries[i];
            let mut one: String = "{\"permit\":".to_owned();
            one.append(entry.permit.render().as_str());
            one.append(",\"state\":");
            one.append(entry.state.render().as_str());
            one.append("}");
            proof {
                reveal(entry_json);
            }
            list.append(one.as_str());
            proof {
                if i == 0 {
                    assert(list@ =~= entry_json(self.entries@[0]));
                }
            }
            i = i + 1;
        }
        assert(self.entries@.take(i as int) =~= self.entries@);
        let mut out: String = "{\"version\":".to_owned();
        out.append(decimal_text(self.version as u64).as_str());
        out.append(",\"host\":");
        out.append(quoted(self.host.to_string().as_str()).as_str());
        out.append(",\"through\":");
        out.append(decimal_text(self.through).as_str());
        out.append(",\"entries\":[");
        out.append(list.as_str());
        out.append("]}");
        out
    }

    /// Whether the entries before `k` are all owned apart from the `k`-th.
    fn apart(&self, k: usize) -> (r: bool)
        requires
            k < self.entries@.len(),
        ensures
            r == (forall|j: int|
                0 <= j < k ==> distinct_owners((#[trigger] self.entries@[j]).permit, self.entries@[k as int].permit)),
    {
        let p: Permit = self.entries[k].permit;
        let mut j: usize = 0;
        while j < k
            invariant
                j <= k < self.entries@.len(),
                p == self.entries@[k as int].permit,
                forall|i: int| 0 <= i < j ==> distinct_owners((#[trigger] self.entries@[i]).permit, p),
            decreases k - j,
        {
            let q: Permit = self.entries[j].permit;
            if q.allocation == p.allocation || q.create_operation == p.create_operation || (q.sandbox == p.sandbox
                && q.generation == p.generation) {
                assert(!distinct_owners(self.entries@[j as int].permit, p));
                return false;
            }
            j = j + 1;
        }
        true
    }

    /// Check storage against independently retained host and frontier knowledge.
    fn check(&self, host: HostId, minimum_through: u64) -> (r: Result<(), Error>)
        ensures
            match restored(self.version, ledger_of(*self), host, minimum_through) {
                Ok(_) => r == Ok::<(), Error>(()),
                Err(error) => r == Err::<(), Error>(error),
            },
            r is Ok ==> ledger_valid(ledger_of(*self)),
    {
        if !valid_uuid(host.uuid()) {
            return Err(Error::Invalid);
        }
        if self.version != 1 || self.through > MAX_SERIAL || self.through < minimum_through || self.entries.len()
            > MAX_ENTRIES {
            return Err(Error::Invalid);
        }
        if self.host != host {
            return Err(Error::Ownership);
        }
        let ghost entries = self.entries@;
        let mut previous: u64 = 0;
        let mut k: usize = 0;
        assert(entries.take(0) =~= Seq::empty());
        while k < self.entries.len()
            invariant
                entries == self.entries@,
                k <= entries.len() <= MAX_ENTRIES,
                is_v7(host.value),
                self.version == 1,
                minimum_through <= self.through <= MAX_SERIAL,
                self.host == host,
                entries_check(host, self.through, entries.take(k as int)) is Ok,
                k > 0 ==> previous == entries[k - 1].permit.serial,
                k == 0 ==> previous == 0,
            decreases entries.len() - k,
        {
            let e: &Entry = &self.entries[k];
            let ghost before = entries.take(k as int);
            proof {
                assert(entries.take(k + 1).drop_last() =~= before);
                assert(entries.take(k + 1).last() == entries[k as int]);
                assert(forall|j: int| 0 <= j < k ==> before[j] == entries[j]);
                if entries_check(host, self.through, entries.take(k + 1)) is Err {
                    lemma_entries_prefix_err(host, self.through, entries, k + 1);
                }
            }
            match e.permit.validate() {
                Ok(_) => {},
                Err(error) => {
                    return Err(error);
                },
            }
            if e.permit.host != host {
                return Err(Error::Ownership);
            }
            let apart: bool = self.apart(k);
            assert(apart == (forall|j: int|
                0 <= j < before.len() ==> distinct_owners((#[trigger] before[j]).permit, e.permit))) by {
                if apart {
                    assert forall|j: int| 0 <= j < before.len() implies distinct_owners((#[trigger] before[j]).permit, e.permit) by {
                        assert(before[j] == entries[j]);
                    }
                } else {
                    let j = choose|j: int| 0 <= j < k && !distinct_owners((#[trigger] self.entries@[j]).permit, self.entries@[k as int].permit);
                    assert(before[j] == entries[j]);
                }
            }
            if e.permit.serial <= previous || e.permit.serial > self.through || !apart || !e.state.valid() {
                return Err(Error::Invalid);
            }
            previous = e.permit.serial;
            k = k + 1;
        }
        proof {
            assert(entries.take(k as int) =~= entries);
            lemma_entries_check(host, self.through, entries);
        }
        Ok(())
    }
}

impl Authority {
    /// The invariant of an authority.
    #[verifier::type_invariant]
    closed spec fn well_formed(self) -> bool {
        self.saved.version == 1 && ledger_valid(ledger_of(self.saved))
    }

    /// Only for an explicitly new authority. Missing/corrupt storage must never
    /// fall back to this constructor during recovery.
    pub fn new(host: HostId) -> (r: Result<Self, Error>)
        ensures
            match r {
                Ok(a) => is_v7(host.value) && a@ == (Ledger { host, through: 0, entries: Seq::empty() }),
                Err(e) => !is_v7(host.value) && e == Error::Invalid,
            },
    {
        if !valid_uuid(host.uuid()) {
            return Err(Error::Invalid);
        }
        let entries: Vec<Entry> = Vec::new();
        assert(entries@ =~= Seq::empty());
        Ok(Authority { saved: Saved { version: 1, host, through: 0, entries } })
    }

    /// The highest serial ever registered.
    pub fn through(&self) -> (r: u64)
        ensures
            r == self@.through,
    {
        self.saved.through
    }

    /// How many owners are retained.
    pub fn retained(&self) -> (r: usize)
        ensures
            r == self@.entries.len(),
    {
        self.saved.entries.len()
    }

    /// What the authority keeps in storage.
    pub fn saved(&self) -> (r: &Saved)
        ensures
            r.version == 1,
            ledger_of(*r) == self@,
            ledger_valid(self@),
    {
        proof {
            use_type_invariant(self);
        }
        &self.saved
    }

    /// Validate storage against independently retained host/frontier knowledge.
    /// `parsed` is what `bytes` hold as the JSON of a saved authority: `None`
    /// where they hold none. This cannot detect a self-consistent rollback
    /// without an external anchor, nor does shape validation prove physical
    /// cleanup or database completion.
    pub fn decode(bytes: &[u8], parsed: Option<Saved>, host: HostId, minimum_through: u64) -> (r: Result<Self, Error>)
        ensures
            match r {
                Ok(a) => bytes@.len() <= MAX_BYTES && parsed is Some && restored(
                    parsed->0.version,
                    ledger_of(parsed->0),
                    host,
                    minimum_through,
                ) == Ok::<Ledger, Error>(a@),
                Err(error) => if bytes@.len() > MAX_BYTES {
                    error == Error::Capacity
                } else if parsed is None {
                    error == Error::Invalid
                } else {
                    restored(parsed->0.version, ledger_of(parsed->0), host, minimum_through) == Err::<Ledger, Error>(error)
                },
            },
    {
        if bytes.len() > MAX_BYTES {
            return Err(Error::Capacity);
        }
        match parsed {
            None => Err(Error::Invalid),
            Some(saved) => {
                match saved.check(host, minimum_through) {
                    Ok(_) => Ok(Authority { saved }),
                    Err(error) => Err(error),
                }
            },
        }
    }

    fn index(&self, permit: &Permit) -> (r: Result<usize, Error>)
        ensures
            match r {
                Ok(i) => lookup(self@, *permit) == Ok::<int, Error>(i as int) && i < self@.entries.len()
                    && self@.entries[i as int].permit == *permit,
                Err(e) => lookup(self@, *permit) == Err::<int, Error>(e),
            },
    {
        proof {
            use_type_invariant(self);
        }
        match permit.validate() {
            Ok(_) => {},
            Err(error) => {
                return Err(error);
            },
        }
        if permit.host != self.saved.host {
            return Err(Error::Ownership);
        }
        let entries: &Vec<Entry> = &self.saved.entries;
        let ghost s = self@;
        let mut low: usize = 0;
        let mut high: usize = entries.len();
        while low < high
            invariant
                s == ledger_of(self.saved),
                ledger_valid(s),
                entries@ == s.entries,
                low <= high <= entries@.len(),
                forall|i: int| 0 <= i < low ==> (#[trigger] s.entries[i]).permit.serial < permit.serial,
                forall|i: int| high <= i < s.entries.len() ==> (#[trigger] s.entries[i]).permit.serial > permit.serial,
                s.host == permit.host,
                permit_valid(*permit),
                s == self@,
            decreases high - low,
        {
            let middle: usize = low + (high - low) / 2;
            let e: &Entry = &entries[middle];
            if e.permit.serial == permit.serial {
                proof {
                    assert(holds(s, middle as int, permit.serial));
                    let c = choose|c: int| holds(s, c, permit.serial);
                    lemma_holds_unique(s, middle as int, c, permit.serial);
                }
                if e.permit == *permit {
                    return Ok(middle);
                }
                return Err(Error::Ownership);
            } else if e.permit.serial < permit.serial {
                proof {
                    assert forall|i: int| 0 <= i < middle + 1 implies (#[trigger] s.entries[i]).permit.serial < permit.serial by {
                        if i < middle {
                            assert(s.entries[i].permit.serial < s.entries[middle as int].permit.serial);
                        }
                    }
                }
                low = middle + 1;
            } else {
                proof {
                    assert forall|i: int| middle <= i < s.entries.len() implies (#[trigger] s.entries[i]).permit.serial > permit.serial by {
                        if i > middle {
                            assert(s.entries[middle as int].permit.serial < s.entries[i].permit.serial);
                        }
                    }
                }
                high = middle;
            }
        }
        proof {
            assert(forall|i: int| !holds(s, i, permit.serial));
        }
        if permit.serial <= self.saved.through {
            Err(Error::Closed)
        } else {
            Err(Error::Unregistered)
        }
    }

    fn entry(&self, permit: &Permit) -> (r: Result<&Entry, Error>)
        ensures
            match r {
                Ok(e) => lookup(self@, *permit) is Ok && *e == self@.entries[lookup(self@, *permit)->Ok_0],
                Err(e) => lookup(self@, *permit) == Err::<int, Error>(e),
            },
    {
        match self.index(permit) {
            Ok(i) => Ok(&self.saved.entries[i]),
            Err(error) => Err(error),
        }
    }

    pub fn state(&self, permit: &Permit) -> (r: Result<&State, Error>)
        ensures
            match r {
                Ok(state) => lookup(self@, *permit) is Ok && *state == self@.entries[lookup(self@, *permit)->Ok_0].state,
                Err(e) => lookup(self@, *permit) == Err::<int, Error>(e),
            },
    {
        match self.entry(permit) {
            Ok(e) => Ok(&e.state),
            Err(error) => Err(error),
        }
    }

    /// Resolve a retained active owner before creating a new host receipt.
    /// Failure is not evidence that an allocation never existed or was released.
    pub fn active_allocation(&self, allocation: AllocationId) -> (r: Result<&Permit, Error>)
        ensures
            match r {
                Ok(p) => is_v7(allocation.value) && p.allocation == allocation && self@.entries.contains(
                    Entry { permit: *p, state: State::Active {} },
                ),
                Err(Error::Invalid) => !is_v7(allocation.value),
                Err(Error::Ownership) => is_v7(allocation.value) && forall|i: int|
                    0 <= i < self@.entries.len() ==> (#[trigger] self@.entries[i]).permit.allocation != allocation,
                Err(Error::Conflict) => is_v7(allocation.value) && exists|i: int|
                    0 <= i < self@.entries.len() && (#[trigger] self@.entries[i]).permit.allocation == allocation
                        && self@.entries[i].state != (State::Active {}),
                Err(_) => false,
            },
    {
        if !valid_uuid(allocation.uuid()) {
            return Err(Error::Invalid);
        }
        let mut i: usize = 0;
        while i < self.saved.entries.len()
            invariant
                i <= self.saved.entries@.len(),
                self@.entries == self.saved.entries@,
                is_v7(allocation.value),
                forall|j: int| 0 <= j < i ==> (#[trigger] self@.entries[j]).permit.allocation != allocation,
            decreases self.saved.entries@.len() - i,
        {
            let e: &Entry = &self.saved.entries[i];
            if e.permit.allocation == allocation {
                if !e.state.same(&State::Active {}) {
                    return Err(Error::Conflict);
                }
                assert(self@.entries[i as int] == Entry { permit: e.permit, state: State::Active {} });
                return Ok(&e.permit);
            }
            i = i + 1;
        }
        Err(Error::Ownership)
    }

    /// All launch/admission entry points must check this under the same durable
    /// authority lock as fencing. A successful check alone is not a launch grant.
    pub fn authorize(&self, permit: &Permit) -> (r: Result<(), Error>)
        ensures
            r == authorized(self@, *permit),
    {
        match self.state(permit) {
            Ok(State::Active {}) => Ok(()),
            Ok(_) => Err(Error::Conflict),
            Err(error) => Err(error),
        }
    }

    /// Read the exact retained completion after a restart or lost response.
    /// Closed after forgetting is only denial, never an exact-scope receipt.
    pub fn completed(&self, intent: &Intent) -> (r: Result<(), Error>)
        ensures
            match completed_at(self@, *intent) {
                Ok(_) => r == Ok::<(), Error>(()),
                Err(error) => r == Err::<(), Error>(error),
            },
    {
        match completion_state(intent) {
            Err(error) => Err(error),
            Ok(expected) => match self.state(&intent.permit) {
                Err(error) => Err(error),
                Ok(state) => if state.same(&expected) {
                    Ok(())
                } else {
                    Err(Error::Conflict)
                },
            },
        }
    }
}

/// What `authorize` answers.
pub open spec fn authorized(s: Ledger, permit: Permit) -> Result<(), Error> {
    match lookup(s, permit) {
        Err(error) => Err(error),
        Ok(i) => if s.entries[i].state == (State::Active {}) {
            Ok(())
        } else {
            Err(Error::Conflict)
        },
    }
}

fn completion_state(intent: &Intent) -> (r: Result<State, Error>)
    ensures
        r == completion_of(*intent),
{
    let intent_sha256: [u8; 32] = match intent.digest() {
        Ok(digest) => digest,
        Err(_) => {
            return Err(Error::Invalid);
        },
    };
    if intent.simulated {
        return Err(Error::Invalid);
    }
    Ok(State::Complete { retirement: intent.retirement, intent_sha256 })
}

impl Authority {
    pub fn encode(&self) -> (r: Result<Vec<u8>, Error>)
        ensures
            r matches Ok(bytes) && bytes@ == encode_utf8(saved_json(1, self@)) && bytes@.len() <= MAX_BYTES,
    {
        proof {
            use_type_invariant(self);
            valid_ledger_fits(self@);
        }
        let bytes: Vec<u8> = self.saved.render().as_str().as_bytes_vec();
        if bytes.len() > MAX_BYTES {
            return Err(Error::Capacity);
        }
        Ok(bytes)
    }

    /// Register the next contiguous batch; Create may then arrive in any order.
    /// An exact wholly retained retry is harmless, but never reactivates fences.
    /// Mixed old/new batches or retries containing forgotten entries fail closed.
    pub fn register(&mut self, permits: &[Permit]) -> (r: Result<(), Error>)
        ensures
            transition(old(self)@, final(self)@, r, registered(old(self)@, permits@)),
    {
        proof {
            use_type_invariant(&*self);
        }
        if permits.len() == 0 || permits.len() > MAX_BATCH {
            return Err(Error::Invalid);
        }
        let ghost s = self@;
        let host: HostId = self.saved.host;
        let mut previous: Option<u64> = None;
        let mut k: usize = 0;
        assert(permits@.take(0) =~= Seq::empty());
        while k < permits.len()
            invariant
                s == self@,
                s == old(self)@,
                host == s.host,
                0 < permits@.len() <= MAX_BATCH,
                k <= permits@.len(),
                batch_check(host, permits@.take(k as int)) is Ok,
                k == 0 ==> previous is None,
                k > 0 ==> previous == Some(permits@[k - 1].serial),
            decreases permits@.len() - k,
        {
            let p: &Permit = &permits[k];
            proof {
                assert(permits@.take(k + 1).drop_last() =~= permits@.take(k as int));
                assert(permits@.take(k + 1).last() == permits@[k as int]);
                if batch_check(host, permits@.take(k + 1)) is Err {
                    lemma_batch_prefix_err(host, permits@, k + 1);
                }
            }
            match p.validate() {
                Ok(_) => {},
                Err(error) => {
                    return Err(error);
                },
            }
            if p.host != host {
                return Err(Error::Ownership);
            }
            match previous {
                Some(n) => {
                    if n.checked_add(1) != Some(p.serial) {
                        return Err(Error::RegistrationOrder);
                    }
                },
                None => {},
            }
            previous = Some(p.serial);
            k = k + 1;
        }
        assert(permits@.take(k as int) =~= permits@);
        if permits[0].serial <= self.saved.through {
            return self.retry(permits);
        }
        if self.saved.through.checked_add(1) != Some(permits[0].serial) {
            return Err(Error::RegistrationOrder);
        }
        proof {
            use_type_invariant(&*self);
        }
        if self.saved.entries.len() + permits.len() > MAX_ENTRIES {
            return Err(Error::Capacity);
        }
        // Validate the full proposed state before publishing any transition.
        let next: Saved = self.proposed(permits);
        proof {
            lemma_extended_check(s, permits@);
        }
        match next.check(host, self.saved.through) {
            Ok(_) => {
                self.saved = next;
                Ok(())
            },
            Err(error) => Err(error),
        }
    }

    /// A retried batch: every permit must be retained.
    fn retry(&self, permits: &[Permit]) -> (r: Result<(), Error>)
        ensures
            r == retained_check(self@, permits@),
    {
        let mut k: usize = 0;
        assert(permits@.take(0) =~= Seq::empty());
        while k < permits.len()
            invariant
                k <= permits@.len(),
                retained_check(self@, permits@.take(k as int)) is Ok,
            decreases permits@.len() - k,
        {
            proof {
                assert(permits@.take(k + 1).drop_last() =~= permits@.take(k as int));
                assert(permits@.take(k + 1).last() == permits@[k as int]);
                if retained_check(self@, permits@.take(k + 1)) is Err {
                    lemma_retained_prefix_err(self@, permits@, k + 1);
                }
            }
            match self.entry(&permits[k]) {
                Ok(_) => {},
                Err(error) => {
                    return Err(error);
                },
            }
            k = k + 1;
        }
        assert(permits@.take(k as int) =~= permits@);
        Ok(())
    }

    /// The stored state with a fresh batch appended.
    fn proposed(&self, permits: &[Permit]) -> (r: Saved)
        requires
            permits@.len() > 0,
        ensures
            r.version == 1,
            ledger_of(r) == extended(self@, permits@),
    {
        proof {
            use_type_invariant(self);
        }
        let mut entries: Vec<Entry> = Vec::new();
        let mut i: usize = 0;
        while i < self.saved.entries.len()
            invariant
                i <= self.saved.entries@.len(),
                entries@ == self.saved.entries@.take(i as int),
            decreases self.saved.entries@.len() - i,
        {
            let e: Entry = self.saved.entries[i];
            entries.push(e);
            i = i + 1;
            assert(entries@ =~= self.saved.entries@.take(i as int));
        }
        assert(entries@ =~= self.saved.entries@);
        let mut through: u64 = self.saved.through;
        let mut k: usize = 0;
        assert(entries@ =~= self.saved.entries@ + activated(permits@.take(0)));
        while k < permits.len()
            invariant
                k <= permits@.len(),
                entries@ == self.saved.entries@ + activated(permits@.take(k as int)),
                k > 0 ==> through == permits@[k - 1].serial,
            decreases permits@.len() - k,
        {
            let p: Permit = permits[k];
            entries.push(Entry { permit: p, state: State::Active {} });
            through = p.serial;
            k = k + 1;
            assert(entries@ =~= self.saved.entries@ + activated(permits@.take(k as int)));
        }
        assert(permits@.take(k as int) =~= permits@);
        Saved { version: self.saved.version, host: self.saved.host, through, entries }
    }

    /// Caller has frozen consumer closure in the database. Persist this denial
    /// before observing cleanup or deleting anything. There is no unfence method.
    pub fn fence(&mut self, permit: &Permit, retirement: OperationId) -> (r: Result<(), Error>)
        ensures
            transition(old(self)@, final(self)@, r, fenced(old(self)@, *permit, retirement)),
    {
        if !valid_uuid(retirement.uuid()) {
            return Err(Error::Invalid);
        }
        let i: usize = match self.index(permit) {
            Ok(i) => i,
            Err(error) => {
                return Err(error);
            },
        };
        let state: State = self.saved.entries[i].state;
        match state {
            State::Active {} => {
                self.set_state(i, State::Fenced { retirement });
                Ok(())
            },
            State::Fenced { retirement: r } => if r == retirement {
                Ok(())
            } else {
                Err(Error::Conflict)
            },
            State::Complete { retirement: r, .. } => if r == retirement {
                Ok(())
            } else {
                Err(Error::Conflict)
            },
        }
    }

    fn set_state(&mut self, i: usize, state: State)
        requires
            i < old(self)@.entries.len(),
            state_valid(state),
        ensures
            final(self)@ == with_state(old(self)@, i as int, state),
    {
        proof {
            use_type_invariant(&*self);
        }
        let mut entries: Vec<Entry> = Vec::new();
        std::mem::swap(&mut entries, &mut self.saved.entries);
        let permit: Permit = entries[i].permit;
        entries.set(i, Entry { permit, state });
        self.saved.entries = entries;
    }

    /// Caller has independently verified exact-owner cleanup and synced metadata
    /// deletion. Bind the full frozen scope before the host record can disappear.
    /// This digest is not a signature or proof of database acknowledgement.
    pub fn complete(&mut self, intent: &Intent) -> (r: Result<(), Error>)
        ensures
            transition(old(self)@, final(self)@, r, completed_by(old(self)@, *intent)),
    {
        let complete: State = match completion_state(intent) {
            Ok(state) => state,
            Err(error) => {
                return Err(error);
            },
        };
        let i: usize = match self.index(&intent.permit) {
            Ok(i) => i,
            Err(error) => {
                return Err(error);
            },
        };
        let state: State = self.saved.entries[i].state;
        if state.same(&State::Fenced { retirement: intent.retirement }) {
            self.set_state(i, complete);
            Ok(())
        } else if state.same(&complete) {
            Ok(())
        } else {
            Err(Error::Conflict)
        }
    }

    /// Caller has verified durable database completion. Afterwards Closed means
    /// only denial, never a receipt for this request's identity or cleanup.
    pub fn forget(&mut self, intent: &Intent) -> (r: Result<(), Error>)
        ensures
            transition(old(self)@, final(self)@, r, forgotten(old(self)@, *intent)),
    {
        match self.completed(intent) {
            Ok(_) => {},
            Err(error) => {
                return Err(error);
            },
        }
        let i: usize = match self.index(&intent.permit) {
            Ok(i) => i,
            Err(error) => {
                return Err(error);
            },
        };
        proof {
            use_type_invariant(&*self);
        }
        let mut entries: Vec<Entry> = Vec::new();
        std::mem::swap(&mut entries, &mut self.saved.entries);
        entries.remove(i);
        self.saved.entries = entries;
        Ok(())
    }
}

/// A proposed batch meets the stored-state check exactly where the extended
/// ledger meets the invariant, and fails it as invalid.
proof fn lemma_extended_check(s: Ledger, permits: Seq<Permit>)
    requires
        ledger_valid(s),
        permits.len() > 0,
        batch_check(s.host, permits) is Ok,
        s.through + 1 == permits[0].serial,
        s.entries.len() + permits.len() <= MAX_ENTRIES,
    ensures
        restored(1, extended(s, permits), s.host, s.through) == (if ledger_valid(extended(s, permits)) {
            Ok::<Ledger, Error>(extended(s, permits))
        } else {
            Err(Error::Invalid)
        }),
{
    let t = extended(s, permits);
    lemma_batch_ok(s.host, permits);
    assert(permits.last() == permits[permits.len() - 1]);
    lemma_entries_check(s.host, t.through, t.entries);
    lemma_extended_check_prefix(s, permits, t.entries.len() as int);
    assert(t.entries.take(t.entries.len() as int) =~= t.entries);
}

proof fn lemma_extended_check_prefix(s: Ledger, permits: Seq<Permit>, k: int)
    requires
        ledger_valid(s),
        permits.len() > 0,
        batch_check(s.host, permits) is Ok,
        0 <= k <= s.entries.len() + permits.len(),
    ensures
        entries_check(s.host, extended(s, permits).through, extended(s, permits).entries.take(k)) matches Err(e)
            ==> e == Error::Invalid,
    decreases k,
{
    let t = extended(s, permits);
    if k > 0 {
        lemma_extended_check_prefix(s, permits, k - 1);
        lemma_batch_ok(s.host, permits);
        assert(t.entries.take(k).drop_last() =~= t.entries.take(k - 1));
        let e = t.entries.take(k).last();
        assert(e == t.entries[k - 1]);
        if k - 1 < s.entries.len() {
            assert(e == s.entries[k - 1]);
        } else {
            assert(e.permit == permits[k - 1 - s.entries.len()]);
        }
        assert(e.permit.host == s.host);
    }
}

pub(crate) proof fn lemma_permit_compact(p: Permit)
    ensures
        compact(permit_json(p), 377),
{
    reveal(permit_json);
    assert(compact("{\"host\":"@, 8)) by {
        reveal_strlit("{\"host\":");
        reveal(compact);
    }
    lemma_id_json_compact("hst"@, p.host.value);
    assert(compact(",\"project\":"@, 11)) by {
        reveal_strlit(",\"project\":");
        reveal(compact);
    }
    lemma_id_json_compact("prj"@, p.project.value);
    assert(compact(",\"sandbox\":"@, 11)) by {
        reveal_strlit(",\"sandbox\":");
        reveal(compact);
    }
    lemma_id_json_compact("sbx"@, p.sandbox.value);
    assert(compact(",\"allocation\":"@, 14)) by {
        reveal_strlit(",\"allocation\":");
        reveal(compact);
    }
    lemma_id_json_compact("alc"@, p.allocation.value);
    assert(compact(",\"create_operation\":"@, 20)) by {
        reveal_strlit(",\"create_operation\":");
        reveal(compact);
    }
    lemma_id_json_compact("op"@, p.create_operation.value);
    assert(compact(",\"generation\":"@, 14)) by {
        reveal_strlit(",\"generation\":");
        reveal(compact);
    }
    lemma_numeral_compact(p.generation as int);
    assert(compact(",\"original_epoch\":"@, 18)) by {
        reveal_strlit(",\"original_epoch\":");
        reveal(compact);
    }
    lemma_numeral_compact(p.original_epoch as int);
    assert(compact(",\"serial\":"@, 10)) by {
        reveal_strlit(",\"serial\":");
        reveal(compact);
    }
    lemma_numeral_compact(p.serial as int);
    assert(compact("}"@, 1)) by {
        reveal_strlit("}");
        reveal(compact);
    }
    let a0 = "{\"host\":"@;
    let a1 = a0 + id_json("hst"@, p.host.value);
    lemma_compact_cat(a0, 8, id_json("hst"@, p.host.value), 42);
    let a2 = a1 + ",\"project\":"@;
    lemma_compact_cat(a1, 50, ",\"project\":"@, 11);
    let a3 = a2 + id_json("prj"@, p.project.value);
    lemma_compact_cat(a2, 61, id_json("prj"@, p.project.value), 42);
    let a4 = a3 + ",\"sandbox\":"@;
    lemma_compact_cat(a3, 103, ",\"sandbox\":"@, 11);
    let a5 = a4 + id_json("sbx"@, p.sandbox.value);
    lemma_compact_cat(a4, 114, id_json("sbx"@, p.sandbox.value), 42);
    let a6 = a5 + ",\"allocation\":"@;
    lemma_compact_cat(a5, 156, ",\"allocation\":"@, 14);
    let a7 = a6 + id_json("alc"@, p.allocation.value);
    lemma_compact_cat(a6, 170, id_json("alc"@, p.allocation.value), 42);
    let a8 = a7 + ",\"create_operation\":"@;
    lemma_compact_cat(a7, 212, ",\"create_operation\":"@, 20);
    let a9 = a8 + id_json("op"@, p.create_operation.value);
    lemma_compact_cat(a8, 232, id_json("op"@, p.create_operation.value), 42);
    let a10 = a9 + ",\"generation\":"@;
    lemma_compact_cat(a9, 274, ",\"generation\":"@, 14);
    let a11 = a10 + signed_decimal(p.generation as int);
    lemma_compact_cat(a10, 288, signed_decimal(p.generation as int), 20);
    let a12 = a11 + ",\"original_epoch\":"@;
    lemma_compact_cat(a11, 308, ",\"original_epoch\":"@, 18);
    let a13 = a12 + signed_decimal(p.original_epoch as int);
    lemma_compact_cat(a12, 326, signed_decimal(p.original_epoch as int), 20);
    let a14 = a13 + ",\"serial\":"@;
    lemma_compact_cat(a13, 346, ",\"serial\":"@, 10);
    let a15 = a14 + decimal(p.serial as nat);
    lemma_compact_cat(a14, 356, decimal(p.serial as nat), 20);
    let a16 = a15 + "}"@;
    lemma_compact_cat(a15, 376, "}"@, 1);
}

proof fn lemma_byte_list_compact(bytes: Seq<u8>)
    ensures
        compact(byte_list(bytes), 4 * bytes.len() as int),
    decreases bytes.len(),
{
    if bytes.len() == 0 {
        reveal(compact);
    } else if bytes.len() == 1 {
        lemma_byte_numeral_compact(bytes[0]);
        reveal(compact);
    } else if bytes.len() > 1 {
        lemma_byte_list_compact(bytes.drop_last());
        lemma_byte_numeral_compact(bytes.last());
        assert(compact(","@, 1)) by {
            reveal_strlit(",");
            reveal(compact);
        }
        let n = 4 * (bytes.len() - 1);
        lemma_compact_cat(byte_list(bytes.drop_last()), n, ","@, 1);
        lemma_compact_cat(byte_list(bytes.drop_last()) + ","@, n + 1, decimal(bytes.last() as nat), 3);
    }
}

/// A digest's JSON array of numbers.
pub(crate) proof fn lemma_bytes_json_compact(bytes: Seq<u8>)
    requires
        bytes.len() == 32,
    ensures
        compact(bytes_json(bytes), 130),
{
    reveal(bytes_json);
    lemma_byte_list_compact(bytes);
    assert(compact("["@, 1) && compact("]"@, 1)) by {
        reveal_strlit("[");
        reveal_strlit("]");
        reveal(compact);
    }
    lemma_compact_cat("["@, 1, byte_list(bytes), 128);
    lemma_compact_cat("["@ + byte_list(bytes), 129, "]"@, 1);
}

proof fn lemma_state_compact(s: State)
    ensures
        compact(state_json(s), 223),
{
    reveal(state_json);
    match s {
        State::Active {} => {
            reveal_strlit("{\"state\":\"active\"}");
            reveal(compact);
        },
        State::Fenced { retirement } => {
            assert(compact("{\"state\":\"fenced\",\"retirement\":"@, 31)) by {
                reveal_strlit("{\"state\":\"fenced\",\"retirement\":");
                reveal(compact);
            }
            lemma_id_json_compact("op"@, retirement.value);
            assert(compact("}"@, 1)) by {
                reveal_strlit("}");
                reveal(compact);
            }
            let a0 = "{\"state\":\"fenced\",\"retirement\":"@;
            let a1 = a0 + id_json("op"@, retirement.value);
            lemma_compact_cat(a0, 31, id_json("op"@, retirement.value), 42);
            let a2 = a1 + "}"@;
            lemma_compact_cat(a1, 73, "}"@, 1);
            reveal(compact);
        },
        State::Complete { retirement, intent_sha256 } => {
            lemma_bytes_json_compact(intent_sha256@);
            assert(compact("{\"state\":\"complete\",\"retirement\":"@, 33)) by {
                reveal_strlit("{\"state\":\"complete\",\"retirement\":");
                reveal(compact);
            }
            lemma_id_json_compact("op"@, retirement.value);
            assert(compact(",\"intent_sha256\":"@, 17)) by {
                reveal_strlit(",\"intent_sha256\":");
                reveal(compact);
            }
            assert(compact("}"@, 1)) by {
                reveal_strlit("}");
                reveal(compact);
            }
            let a0 = "{\"state\":\"complete\",\"retirement\":"@;
            let a1 = a0 + id_json("op"@, retirement.value);
            lemma_compact_cat(a0, 33, id_json("op"@, retirement.value), 42);
            let a2 = a1 + ",\"intent_sha256\":"@;
            lemma_compact_cat(a1, 75, ",\"intent_sha256\":"@, 17);
            let a3 = a2 + bytes_json(intent_sha256@);
            lemma_compact_cat(a2, 92, bytes_json(intent_sha256@), 130);
            let a4 = a3 + "}"@;
            lemma_compact_cat(a3, 222, "}"@, 1);
        },
    }
}

proof fn lemma_entry_compact(e: Entry)
    ensures
        compact(entry_json(e), 620),
{
    reveal(entry_json);
    assert(compact("{\"permit\":"@, 10)) by {
        reveal_strlit("{\"permit\":");
        reveal(compact);
    }
    lemma_permit_compact(e.permit);
    assert(compact(",\"state\":"@, 9)) by {
        reveal_strlit(",\"state\":");
        reveal(compact);
    }
    lemma_state_compact(e.state);
    assert(compact("}"@, 1)) by {
        reveal_strlit("}");
        reveal(compact);
    }
    let a0 = "{\"permit\":"@;
    let a1 = a0 + permit_json(e.permit);
    lemma_compact_cat(a0, 10, permit_json(e.permit), 377);
    let a2 = a1 + ",\"state\":"@;
    lemma_compact_cat(a1, 387, ",\"state\":"@, 9);
    let a3 = a2 + state_json(e.state);
    lemma_compact_cat(a2, 396, state_json(e.state), 223);
    let a4 = a3 + "}"@;
    lemma_compact_cat(a3, 619, "}"@, 1);
}

proof fn lemma_entry_list_compact(entries: Seq<Entry>)
    ensures
        compact(entry_list(entries), 621 * entries.len() as int),
    decreases entries.len(),
{
    if entries.len() == 0 {
        reveal(compact);
    } else if entries.len() == 1 {
        lemma_entry_compact(entries[0]);
        reveal(compact);
    } else if entries.len() > 1 {
        lemma_entry_list_compact(entries.drop_last());
        lemma_entry_compact(entries.last());
        assert(compact(","@, 1)) by {
            reveal_strlit(",");
            reveal(compact);
        }
        let n = 621 * (entries.len() - 1);
        lemma_compact_cat(entry_list(entries.drop_last()), n, ","@, 1);
        lemma_compact_cat(entry_list(entries.drop_last()) + ","@, n + 1, entry_json(entries.last()), 620);
    }
}

/// Every valid ledger can be saved: its encoding never exceeds the limit.
pub proof fn valid_ledger_fits(s: Ledger)
    requires
        ledger_valid(s),
    ensures
        encode_utf8(saved_json(1, s)).len() <= MAX_BYTES,
{
    reveal(saved_json);
    lemma_entry_list_compact(s.entries);
    assert(compact(entry_list(s.entries), 635904)) by {
        reveal(compact);
    }
    assert(compact("{\"version\":"@, 11)) by {
        reveal_strlit("{\"version\":");
        reveal(compact);
    }
    lemma_numeral_compact(1u32 as int);
    assert(compact(",\"host\":"@, 8)) by {
        reveal_strlit(",\"host\":");
        reveal(compact);
    }
    lemma_id_json_compact("hst"@, s.host.value);
    assert(compact(",\"through\":"@, 11)) by {
        reveal_strlit(",\"through\":");
        reveal(compact);
    }
    lemma_numeral_compact(s.through as int);
    assert(compact(",\"entries\":["@, 12)) by {
        reveal_strlit(",\"entries\":[");
        reveal(compact);
    }
    assert(compact("]}"@, 2)) by {
        reveal_strlit("]}");
        reveal(compact);
    }
    let a0 = "{\"version\":"@;
    let a1 = a0 + decimal(1u32 as nat);
    lemma_compact_cat(a0, 11, decimal(1u32 as nat), 20);
    let a2 = a1 + ",\"host\":"@;
    lemma_compact_cat(a1, 31, ",\"host\":"@, 8);
    let a3 = a2 + id_json("hst"@, s.host.value);
    lemma_compact_cat(a2, 39, id_json("hst"@, s.host.value), 42);
    let a4 = a3 + ",\"through\":"@;
    lemma_compact_cat(a3, 81, ",\"through\":"@, 11);
    let a5 = a4 + decimal(s.through as nat);
    lemma_compact_cat(a4, 92, decimal(s.through as nat), 20);
    let a6 = a5 + ",\"entries\":["@;
    lemma_compact_cat(a5, 112, ",\"entries\":["@, 12);
    let a7 = a6 + entry_list(s.entries);
    lemma_compact_cat(a6, 124, entry_list(s.entries), 635904);
    let a8 = a7 + "]}"@;
    lemma_compact_cat(a7, 636028, "]}"@, 2);
    lemma_compact_bytes(saved_json(1, s), 636030);
}

} // verus!
