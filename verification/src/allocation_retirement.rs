//! Frozen whole-allocation retirement scope. Shape validation is not authority,
//! consumer closure, physical release, or permission to delete metadata.
use crate::allocation_authority::{lemma_permit_compact, permit_json, permit_valid, Permit};
use crate::digest::{sha256, sha256_of};
use crate::ids::{is_v7, valid_uuid, Id, OperationId};
use crate::json::{
    compact, decimal, decimal_text, id_json, json_string, lemma_compact_bytes, lemma_compact_cat,
    lemma_id_json_compact, lemma_numeral_compact, plain_char, plain_text_is_only_quoted, quoted,
    signed_decimal, signed_text,
};
use crate::text::{is_lower_hex, lower_hex, lower_hex_text, same_text};
use vstd::prelude::*;
use vstd::string::*;
use vstd::utf8::*;

verus! {

pub const MAX_BYTES: usize = 8192;

#[derive(Debug, Clone, Copy, PartialEq, Eq, Structural)]
pub enum Error {
    /// Invalid allocation retirement request.
    Invalid,
    /// Allocation retirement scope changed.
    Scope,
    /// Allocation retirement claim expired or stale.
    Claim,
}

/// Database-proposed closure, requiring independent host verification. Empty
/// means explicitly frozen empty, never an inference from a missing receipt.
#[derive(Debug, Clone, Copy, PartialEq, Eq, Structural)]
pub enum DomainClosure {
    Empty,
    Retired { through: OperationId },
}

#[derive(Debug, PartialEq, Eq)]
pub struct Intent {
    pub version: u32,
    pub retirement: OperationId,
    pub permit: Permit,
    pub commands: DomainClosure,
    pub files: DomainClosure,
    /// Digest of the retained database release evidence; not a release proof.
    pub release_evidence_sha256: String,
    /// Simulation cannot be upgraded to physical evidence by a later retry.
    pub simulated: bool,
}

/// The closure names a version 7 operation other than the retirement and the
/// creation, or is explicitly empty.
pub open spec fn closure_valid(closure: DomainClosure, retirement: OperationId, create: OperationId) -> bool {
    match closure {
        DomainClosure::Empty => true,
        DomainClosure::Retired { through } => is_v7(through.value) && through != retirement && through != create,
    }
}

/// The same scope, field by field.
pub open spec fn same_intent(a: Intent, b: Intent) -> bool {
    &&& a.version == b.version
    &&& a.retirement == b.retirement
    &&& a.permit == b.permit
    &&& a.commands == b.commands
    &&& a.files == b.files
    &&& a.release_evidence_sha256@ == b.release_evidence_sha256@
    &&& a.simulated == b.simulated
}

pub open spec fn intent_valid(intent: Intent) -> bool {
    &&& intent.version == 1
    &&& is_v7(intent.retirement.value)
    &&& intent.retirement != intent.permit.create_operation
    &&& permit_valid(intent.permit)
    &&& intent.release_evidence_sha256@.len() == 64
    &&& lower_hex_text(intent.release_evidence_sha256@)
    &&& closure_valid(intent.commands, intent.retirement, intent.permit.create_operation)
    &&& closure_valid(intent.files, intent.retirement, intent.permit.create_operation)
}

#[verifier::opaque]
pub open spec fn closure_json(closure: DomainClosure) -> Seq<char> {
    match closure {
        DomainClosure::Empty => "{\"kind\":\"empty\"}"@,
        DomainClosure::Retired { through } => "{\"kind\":\"retired\",\"through\":"@ + id_json("op"@, through.value)
            + "}"@,
    }
}

pub open spec fn bool_json(value: bool) -> Seq<char> {
    if value {
        "true"@
    } else {
        "false"@
    }
}

/// The typed encoding of an intent: its fields in declaration order.
#[verifier::opaque]
pub open spec fn intent_json(intent: Intent) -> Seq<char> {
    "{\"version\":"@ + decimal(intent.version as nat) + ",\"retirement\":"@ + id_json("op"@, intent.retirement.value)
        + ",\"permit\":"@ + permit_json(intent.permit) + ",\"commands\":"@ + closure_json(intent.commands)
        + ",\"files\":"@ + closure_json(intent.files) + ",\"release_evidence_sha256\":"@ + json_string(
        intent.release_evidence_sha256@,
    ) + ",\"simulated\":"@ + bool_json(intent.simulated) + "}"@
}

pub(crate) fn bool_text(value: bool) -> (r: &'static str)
    ensures
        r@ == bool_json(value),
{
    if value {
        "true"
    } else {
        "false"
    }
}

impl DomainClosure {
    fn valid(&self, retirement: OperationId, create: OperationId) -> (r: bool)
        ensures
            r == closure_valid(*self, retirement, create),
    {
        match self {
            DomainClosure::Empty => true,
            DomainClosure::Retired { through } => valid_uuid(through.uuid()) && *through != retirement
                && *through != create,
        }
    }

    fn render(&self) -> (r: String)
        ensures
            r@ == closure_json(*self),
    {
        proof {
            reveal(closure_json);
        }
        match self {
            DomainClosure::Empty => "{\"kind\":\"empty\"}".to_owned(),
            DomainClosure::Retired { through } => {
                let mut out: String = "{\"kind\":\"retired\",\"through\":".to_owned();
                out.append(quoted(through.to_string().as_str()).as_str());
                out.append("}");
                out
            },
        }
    }
}

/// What encoding a value with the given text gives: the bytes, unless they are
/// over the limit.
pub open spec fn within_limit(text: Seq<char>) -> Result<Seq<u8>, Error> {
    if encode_utf8(text).len() > MAX_BYTES {
        Err(Error::Invalid)
    } else {
        Ok(encode_utf8(text))
    }
}

/// What `Intent::encode` gives.
pub open spec fn intent_bytes(intent: Intent) -> Result<Seq<u8>, Error> {
    if !intent_valid(intent) {
        Err(Error::Invalid)
    } else {
        within_limit(intent_json(intent))
    }
}

/// What `Intent::digest` gives.
pub open spec fn intent_digest(intent: Intent) -> Result<[u8; 32], Error> {
    match intent_bytes(intent) {
        Ok(bytes) => Ok(sha256_of(bytes)),
        Err(e) => Err(e),
    }
}

/// The bytes of a result that holds a vector.
pub open spec fn bytes_of(r: Result<Vec<u8>, Error>) -> Result<Seq<u8>, Error> {
    match r {
        Ok(bytes) => Ok(bytes@),
        Err(e) => Err(e),
    }
}

fn limited(text: &str) -> (r: Result<Vec<u8>, Error>)
    ensures
        bytes_of(r) == within_limit(text@),
{
    let bytes: Vec<u8> = text.as_bytes_vec();
    if bytes.len() > MAX_BYTES {
        return Err(Error::Invalid);
    }
    Ok(bytes)
}

impl Clone for Intent {
    fn clone(&self) -> (r: Self)
        ensures
            same_intent(r, *self),
            r == *self,
    {
        Intent {
            version: self.version,
            retirement: self.retirement,
            permit: self.permit,
            commands: self.commands,
            files: self.files,
            release_evidence_sha256: self.release_evidence_sha256.clone(),
            simulated: self.simulated,
        }
    }
}

impl Intent {
    pub fn validate(&self) -> (r: Result<(), Error>)
        ensures
            r == (if intent_valid(*self) {
                Ok::<(), Error>(())
            } else {
                Err(Error::Invalid)
            }),
    {
        let digest: &str = self.release_evidence_sha256.as_str();
        if self.version != 1 || !valid_uuid(self.retirement.uuid()) || self.retirement == self.permit.create_operation
            || self.permit.validate().is_err() || digest.unicode_len() != 64 || !is_lower_hex(digest) {
            return Err(Error::Invalid);
        }
        if !self.commands.valid(self.retirement, self.permit.create_operation) || !self.files.valid(
            self.retirement,
            self.permit.create_operation,
        ) {
            return Err(Error::Invalid);
        }
        Ok(())
    }

    /// Whether the other intent has the same scope.
    pub fn same(&self, other: &Intent) -> (r: bool)
        ensures
            r == same_intent(*self, *other),
    {
        self.version == other.version && self.retirement == other.retirement && self.permit == other.permit
            && self.commands == other.commands && self.files == other.files && same_text(
            self.release_evidence_sha256.as_str(),
            other.release_evidence_sha256.as_str(),
        ) && self.simulated == other.simulated
    }

    fn render(&self) -> (r: String)
        ensures
            r@ == intent_json(*self),
    {
        proof {
            reveal(intent_json);
        }
        let mut out: String = "{\"version\":".to_owned();
        out.append(decimal_text(self.version as u64).as_str());
        out.append(",\"retirement\":");
        out.append(quoted(self.retirement.to_string().as_str()).as_str());
        out.append(",\"permit\":");
        out.append(self.permit.render().as_str());
        out.append(",\"commands\":");
        out.append(self.commands.render().as_str());
        out.append(",\"files\":");
        out.append(self.files.render().as_str());
        out.append(",\"release_evidence_sha256\":");
        out.append(quoted(self.release_evidence_sha256.as_str()).as_str());
        out.append(",\"simulated\":");
        out.append(bool_text(self.simulated));
        out.append("}");
        out
    }

    pub fn encode(&self) -> (r: Result<Vec<u8>, Error>)
        ensures
            bytes_of(r) == intent_bytes(*self),
    {
        self.validate()?;
        limited(self.render().as_str())
    }

    /// Accept `parsed`, what `bytes` hold as the JSON of an intent: `None` where
    /// they hold none.
    pub fn decode(bytes: &[u8], parsed: Option<Intent>) -> (r: Result<Self, Error>)
        ensures
            r == (match parsed {
                Some(intent) => if bytes@.len() <= MAX_BYTES && intent_valid(intent) {
                    Ok(intent)
                } else {
                    Err(Error::Invalid)
                },
                None => Err(Error::Invalid),
            }),
    {
        if bytes.len() > MAX_BYTES {
            return Err(Error::Invalid);
        }
        match parsed {
            Some(intent) => {
                intent.validate()?;
                Ok(intent)
            },
            None => Err(Error::Invalid),
        }
    }

    /// Canonical typed encoding, independent of incoming JSON key order. Not a
    /// signature: authenticated callers and independently stored scope are needed.
    pub fn digest(&self) -> (r: Result<[u8; 32], Error>)
        ensures
            r == intent_digest(*self),
    {
        let bytes: Vec<u8> = self.encode()?;
        Ok(sha256(bytes.as_slice()))
    }
}

/// Renewable delivery envelope; none of these fields can alter frozen scope.
#[derive(Debug, PartialEq, Eq)]
pub struct Request {
    pub intent: Intent,
    pub reporting_epoch: i64,
    pub revision: i64,
    pub expires_unix_ms: i64,
}

pub open spec fn same_request(a: Request, b: Request) -> bool {
    &&& same_intent(a.intent, b.intent)
    &&& a.reporting_epoch == b.reporting_epoch
    &&& a.revision == b.revision
    &&& a.expires_unix_ms == b.expires_unix_ms
}

/// The claim is live at `now` for the reporting epoch and is no older than the
/// least revision still accepted.
pub open spec fn claim_live(request: Request, current_epoch: i64, minimum_revision: i64, now: i64) -> bool {
    &&& minimum_revision > 0
    &&& request.revision >= minimum_revision
    &&& now > 0
    &&& request.expires_unix_ms > now
    &&& request.reporting_epoch >= request.intent.permit.original_epoch
    &&& request.reporting_epoch == current_epoch
}

/// What `Request::validate` gives.
pub open spec fn request_validity(
    request: Request,
    retained: Intent,
    current_epoch: i64,
    minimum_revision: i64,
    now: i64,
) -> Result<(), Error> {
    if !intent_valid(request.intent) || !intent_valid(retained) {
        Err(Error::Invalid)
    } else if !same_intent(request.intent, retained) {
        Err(Error::Scope)
    } else if !claim_live(request, current_epoch, minimum_revision, now) {
        Err(Error::Claim)
    } else {
        Ok(())
    }
}

#[verifier::opaque]
pub open spec fn request_json(request: Request) -> Seq<char> {
    "{\"intent\":"@ + intent_json(request.intent) + ",\"reporting_epoch\":"@ + signed_decimal(
        request.reporting_epoch as int,
    ) + ",\"revision\":"@ + signed_decimal(request.revision as int) + ",\"expires_unix_ms\":"@ + signed_decimal(
        request.expires_unix_ms as int,
    ) + "}"@
}

/// What `Request::encode` gives.
pub open spec fn request_bytes(request: Request) -> Result<Seq<u8>, Error> {
    if !intent_valid(request.intent) {
        Err(Error::Invalid)
    } else {
        within_limit(request_json(request))
    }
}

impl Clone for Request {
    fn clone(&self) -> (r: Self)
        ensures
            r == *self,
    {
        Request {
            intent: self.intent.clone(),
            reporting_epoch: self.reporting_epoch,
            revision: self.revision,
            expires_unix_ms: self.expires_unix_ms,
        }
    }
}

impl Request {
    /// `retained` and `current_epoch` must come from independent durable state;
    /// `now_unix_ms` is the receiver's clock. This validates no cleanup evidence.
    pub fn validate(
        &self,
        retained: &Intent,
        current_epoch: i64,
        minimum_revision: i64,
        now_unix_ms: i64,
    ) -> (r: Result<(), Error>)
        ensures
            r == request_validity(*self, *retained, current_epoch, minimum_revision, now_unix_ms),
    {
        self.intent.validate()?;
        retained.validate()?;
        if !self.intent.same(retained) {
            return Err(Error::Scope);
        }
        if minimum_revision <= 0 || self.revision < minimum_revision || now_unix_ms <= 0 || self.expires_unix_ms
            <= now_unix_ms || self.reporting_epoch < self.intent.permit.original_epoch || self.reporting_epoch
            != current_epoch {
            return Err(Error::Claim);
        }
        Ok(())
    }

    /// Whether the other request is the same, field by field.
    pub fn same(&self, other: &Request) -> (r: bool)
        ensures
            r == same_request(*self, *other),
    {
        self.intent.same(&other.intent) && self.reporting_epoch == other.reporting_epoch && self.revision
            == other.revision && self.expires_unix_ms == other.expires_unix_ms
    }

    fn render(&self) -> (r: String)
        ensures
            r@ == request_json(*self),
    {
        proof {
            reveal(request_json);
        }
        let mut out: String = "{\"intent\":".to_owned();
        out.append(self.intent.render().as_str());
        out.append(",\"reporting_epoch\":");
        out.append(signed_text(self.reporting_epoch).as_str());
        out.append(",\"revision\":");
        out.append(signed_text(self.revision).as_str());
        out.append(",\"expires_unix_ms\":");
        out.append(signed_text(self.expires_unix_ms).as_str());
        out.append("}");
        out
    }

    pub fn encode(&self) -> (r: Result<Vec<u8>, Error>)
        ensures
            bytes_of(r) == request_bytes(*self),
    {
        self.intent.validate()?;
        limited(self.render().as_str())
    }

    /// Accept `parsed`, what `bytes` hold as the JSON of a request. Parsing alone
    /// cannot validate a claim against independently retained state.
    pub fn decode(bytes: &[u8], parsed: Option<Request>) -> (r: Result<Self, Error>)
        ensures
            r == (match parsed {
                Some(request) => if bytes@.len() <= MAX_BYTES && intent_valid(request.intent) {
                    Ok(request)
                } else {
                    Err(Error::Invalid)
                },
                None => Err(Error::Invalid),
            }),
    {
        if bytes.len() > MAX_BYTES {
            return Err(Error::Invalid);
        }
        match parsed {
            Some(request) => {
                request.intent.validate()?;
                Ok(request)
            },
            None => Err(Error::Invalid),
        }
    }
}

/// A fresh forgetting claim plus the historical metadata request whose database
/// completion the authenticated controller has retained. The envelope is not an
/// independent database receipt; the issuer must check that completion first.
#[derive(Debug, PartialEq, Eq)]
pub struct ForgetRequest {
    pub version: u32,
    pub claim: Request,
    pub metadata_request: Request,
}

pub open spec fn forget_shape(f: ForgetRequest) -> bool {
    &&& intent_valid(f.claim.intent)
    &&& intent_valid(f.metadata_request.intent)
    &&& f.version == 1
    &&& !f.claim.intent.simulated
    &&& same_intent(f.claim.intent, f.metadata_request.intent)
    &&& f.metadata_request.revision > 0
    &&& f.metadata_request.expires_unix_ms > 0
    &&& f.claim.intent.permit.original_epoch <= f.metadata_request.reporting_epoch <= f.claim.reporting_epoch
    &&& f.claim.revision > 0
    &&& f.claim.expires_unix_ms > 0
}

/// What `ForgetRequest::validate` gives.
pub open spec fn forget_validity(f: ForgetRequest, epoch: i64, now: i64) -> Result<(), Error> {
    if !forget_shape(f) {
        Err(Error::Invalid)
    } else {
        request_validity(f.claim, f.metadata_request.intent, epoch, 1, now)
    }
}

#[verifier::opaque]
pub open spec fn forget_json(f: ForgetRequest) -> Seq<char> {
    "{\"version\":"@ + decimal(f.version as nat) + ",\"claim\":"@ + request_json(f.claim) + ",\"metadata_request\":"@
        + request_json(f.metadata_request) + "}"@
}

/// What `ForgetRequest::encode` gives.
pub open spec fn forget_bytes(f: ForgetRequest) -> Result<Seq<u8>, Error> {
    if !forget_shape(f) {
        Err(Error::Invalid)
    } else {
        within_limit(forget_json(f))
    }
}

impl Clone for ForgetRequest {
    fn clone(&self) -> (r: Self)
        ensures
            r == *self,
    {
        ForgetRequest {
            version: self.version,
            claim: self.claim.clone(),
            metadata_request: self.metadata_request.clone(),
        }
    }
}

impl ForgetRequest {
    fn shape(&self) -> (r: Result<(), Error>)
        ensures
            r == (if forget_shape(*self) {
                Ok::<(), Error>(())
            } else {
                Err(Error::Invalid)
            }),
    {
        self.claim.intent.validate()?;
        self.metadata_request.intent.validate()?;
        if self.version != 1 || self.claim.intent.simulated || !self.claim.intent.same(&self.metadata_request.intent)
            || self.metadata_request.revision <= 0 || self.metadata_request.expires_unix_ms <= 0
            || self.metadata_request.reporting_epoch < self.claim.intent.permit.original_epoch
            || self.metadata_request.reporting_epoch > self.claim.reporting_epoch || self.claim.revision <= 0
            || self.claim.expires_unix_ms <= 0 {
            return Err(Error::Invalid);
        }
        Ok(())
    }

    pub fn validate(&self, epoch: i64, now: i64) -> (r: Result<(), Error>)
        ensures
            r == forget_validity(*self, epoch, now),
    {
        self.shape()?;
        self.claim.validate(&self.metadata_request.intent, epoch, 1, now)
    }

    fn render(&self) -> (r: String)
        ensures
            r@ == forget_json(*self),
    {
        proof {
            reveal(forget_json);
        }
        let mut out: String = "{\"version\":".to_owned();
        out.append(decimal_text(self.version as u64).as_str());
        out.append(",\"claim\":");
        out.append(self.claim.render().as_str());
        out.append(",\"metadata_request\":");
        out.append(self.metadata_request.render().as_str());
        out.append("}");
        out
    }

    pub fn encode(&self) -> (r: Result<Vec<u8>, Error>)
        ensures
            bytes_of(r) == forget_bytes(*self),
    {
        self.shape()?;
        limited(self.render().as_str())
    }

    /// Accept `parsed`, what `bytes` hold as the JSON of a forget request.
    pub fn decode(bytes: &[u8], parsed: Option<ForgetRequest>) -> (r: Result<Self, Error>)
        ensures
            r == (match parsed {
                Some(f) => if bytes@.len() <= MAX_BYTES && forget_shape(f) {
                    Ok(f)
                } else {
                    Err(Error::Invalid)
                },
                None => Err(Error::Invalid),
            }),
    {
        if bytes.len() > MAX_BYTES {
            return Err(Error::Invalid);
        }
        match parsed {
            Some(f) => {
                f.shape()?;
                Ok(f)
            },
            None => Err(Error::Invalid),
        }
    }
}

pub(crate) proof fn lemma_bool_compact(value: bool)
    ensures
        compact(bool_json(value), 5),
{
    reveal_strlit("true");
    reveal_strlit("false");
    reveal(compact);
}

proof fn lemma_closure_compact(c: DomainClosure)
    ensures
        compact(closure_json(c), 71),
{
    reveal(closure_json);
    match c {
        DomainClosure::Empty => {
            reveal_strlit("{\"kind\":\"empty\"}");
            reveal(compact);
        },
        DomainClosure::Retired { through } => {
            assert(compact("{\"kind\":\"retired\",\"through\":"@, 28)) by {
                reveal_strlit("{\"kind\":\"retired\",\"through\":");
                reveal(compact);
            }
            lemma_id_json_compact("op"@, through.value);
            assert(compact("}"@, 1)) by {
                reveal_strlit("}");
                reveal(compact);
            }
            let a0 = "{\"kind\":\"retired\",\"through\":"@;
            let a1 = a0 + id_json("op"@, through.value);
            lemma_compact_cat(a0, 28, id_json("op"@, through.value), 42);
            let a2 = a1 + "}"@;
            lemma_compact_cat(a1, 70, "}"@, 1);
        },
    }
}

proof fn lemma_hex_string_compact(t: Seq<char>)
    requires
        lower_hex_text(t),
    ensures
        compact(json_string(t), t.len() as int + 2),
{
    assert forall|i: int| 0 <= i < t.len() implies plain_char(#[trigger] t[i]) && '\0' <= t[i] <= '\u{7f}' by {
        assert(lower_hex(t[i]));
    }
    plain_text_is_only_quoted(t);
    reveal(compact);
    assert(compact(seq!['"'], 1));
    assert(compact(t, t.len() as int));
    lemma_compact_cat(seq!['"'], 1, t, t.len() as int);
    lemma_compact_cat(seq!['"'] + t, t.len() as int + 1, seq!['"'], 1);
}

proof fn lemma_intent_compact(i: Intent)
    requires
        intent_valid(i),
    ensures
        compact(intent_json(i), 749),
{
    reveal(intent_json);
    lemma_bool_compact(i.simulated);
    assert(compact("{\"version\":"@, 11)) by {
        reveal_strlit("{\"version\":");
        reveal(compact);
    }
    lemma_numeral_compact(i.version as int);
    assert(compact(",\"retirement\":"@, 14)) by {
        reveal_strlit(",\"retirement\":");
        reveal(compact);
    }
    lemma_id_json_compact("op"@, i.retirement.value);
    assert(compact(",\"permit\":"@, 10)) by {
        reveal_strlit(",\"permit\":");
        reveal(compact);
    }
    lemma_permit_compact(i.permit);
    assert(compact(",\"commands\":"@, 12)) by {
        reveal_strlit(",\"commands\":");
        reveal(compact);
    }
    lemma_closure_compact(i.commands);
    assert(compact(",\"files\":"@, 9)) by {
        reveal_strlit(",\"files\":");
        reveal(compact);
    }
    lemma_closure_compact(i.files);
    assert(compact(",\"release_evidence_sha256\":"@, 27)) by {
        reveal_strlit(",\"release_evidence_sha256\":");
        reveal(compact);
    }
    lemma_hex_string_compact(i.release_evidence_sha256@);
    assert(compact(",\"simulated\":"@, 13)) by {
        reveal_strlit(",\"simulated\":");
        reveal(compact);
    }
    assert(compact("}"@, 1)) by {
        reveal_strlit("}");
        reveal(compact);
    }
    let a0 = "{\"version\":"@;
    let a1 = a0 + decimal(i.version as nat);
    lemma_compact_cat(a0, 11, decimal(i.version as nat), 20);
    let a2 = a1 + ",\"retirement\":"@;
    lemma_compact_cat(a1, 31, ",\"retirement\":"@, 14);
    let a3 = a2 + id_json("op"@, i.retirement.value);
    lemma_compact_cat(a2, 45, id_json("op"@, i.retirement.value), 42);
    let a4 = a3 + ",\"permit\":"@;
    lemma_compact_cat(a3, 87, ",\"permit\":"@, 10);
    let a5 = a4 + permit_json(i.permit);
    lemma_compact_cat(a4, 97, permit_json(i.permit), 377);
    let a6 = a5 + ",\"commands\":"@;
    lemma_compact_cat(a5, 474, ",\"commands\":"@, 12);
    let a7 = a6 + closure_json(i.commands);
    lemma_compact_cat(a6, 486, closure_json(i.commands), 71);
    let a8 = a7 + ",\"files\":"@;
    lemma_compact_cat(a7, 557, ",\"files\":"@, 9);
    let a9 = a8 + closure_json(i.files);
    lemma_compact_cat(a8, 566, closure_json(i.files), 71);
    let a10 = a9 + ",\"release_evidence_sha256\":"@;
    lemma_compact_cat(a9, 637, ",\"release_evidence_sha256\":"@, 27);
    let a11 = a10 + json_string(i.release_evidence_sha256@);
    lemma_compact_cat(a10, 664, json_string(i.release_evidence_sha256@), 66);
    let a12 = a11 + ",\"simulated\":"@;
    lemma_compact_cat(a11, 730, ",\"simulated\":"@, 13);
    let a13 = a12 + bool_json(i.simulated);
    lemma_compact_cat(a12, 743, bool_json(i.simulated), 5);
    let a14 = a13 + "}"@;
    lemma_compact_cat(a13, 748, "}"@, 1);
}

proof fn lemma_request_compact(q: Request)
    requires
        intent_valid(q.intent),
    ensures
        compact(request_json(q), 870),
{
    reveal(request_json);
    assert(compact("{\"intent\":"@, 10)) by {
        reveal_strlit("{\"intent\":");
        reveal(compact);
    }
    lemma_intent_compact(q.intent);
    assert(compact(",\"reporting_epoch\":"@, 19)) by {
        reveal_strlit(",\"reporting_epoch\":");
        reveal(compact);
    }
    lemma_numeral_compact(q.reporting_epoch as int);
    assert(compact(",\"revision\":"@, 12)) by {
        reveal_strlit(",\"revision\":");
        reveal(compact);
    }
    lemma_numeral_compact(q.revision as int);
    assert(compact(",\"expires_unix_ms\":"@, 19)) by {
        reveal_strlit(",\"expires_unix_ms\":");
        reveal(compact);
    }
    lemma_numeral_compact(q.expires_unix_ms as int);
    assert(compact("}"@, 1)) by {
        reveal_strlit("}");
        reveal(compact);
    }
    let a0 = "{\"intent\":"@;
    let a1 = a0 + intent_json(q.intent);
    lemma_compact_cat(a0, 10, intent_json(q.intent), 749);
    let a2 = a1 + ",\"reporting_epoch\":"@;
    lemma_compact_cat(a1, 759, ",\"reporting_epoch\":"@, 19);
    let a3 = a2 + signed_decimal(q.reporting_epoch as int);
    lemma_compact_cat(a2, 778, signed_decimal(q.reporting_epoch as int), 20);
    let a4 = a3 + ",\"revision\":"@;
    lemma_compact_cat(a3, 798, ",\"revision\":"@, 12);
    let a5 = a4 + signed_decimal(q.revision as int);
    lemma_compact_cat(a4, 810, signed_decimal(q.revision as int), 20);
    let a6 = a5 + ",\"expires_unix_ms\":"@;
    lemma_compact_cat(a5, 830, ",\"expires_unix_ms\":"@, 19);
    let a7 = a6 + signed_decimal(q.expires_unix_ms as int);
    lemma_compact_cat(a6, 849, signed_decimal(q.expires_unix_ms as int), 20);
    let a8 = a7 + "}"@;
    lemma_compact_cat(a7, 869, "}"@, 1);
}

/// Every valid intent encodes and has a digest: encoding refuses only what
/// validation refuses.
pub proof fn valid_intent_encodes(i: Intent)
    requires
        intent_valid(i),
    ensures
        intent_bytes(i) == Ok::<Seq<u8>, Error>(encode_utf8(intent_json(i))),
        intent_digest(i) == Ok::<[u8; 32], Error>(sha256_of(encode_utf8(intent_json(i)))),
{
    lemma_intent_compact(i);
    lemma_compact_bytes(intent_json(i), 749);
}

/// Every request for a valid intent encodes.
pub proof fn valid_request_encodes(q: Request)
    requires
        intent_valid(q.intent),
    ensures
        request_bytes(q) == Ok::<Seq<u8>, Error>(encode_utf8(request_json(q))),
{
    lemma_request_compact(q);
    lemma_compact_bytes(request_json(q), 870);
}

/// Every well-shaped forget request encodes.
pub proof fn valid_forget_request_encodes(f: ForgetRequest)
    requires
        forget_shape(f),
    ensures
        forget_bytes(f) == Ok::<Seq<u8>, Error>(encode_utf8(forget_json(f))),
{
    reveal(forget_json);
    assert(compact("{\"version\":"@, 11)) by {
        reveal_strlit("{\"version\":");
        reveal(compact);
    }
    lemma_numeral_compact(f.version as int);
    assert(compact(",\"claim\":"@, 9)) by {
        reveal_strlit(",\"claim\":");
        reveal(compact);
    }
    lemma_request_compact(f.claim);
    assert(compact(",\"metadata_request\":"@, 20)) by {
        reveal_strlit(",\"metadata_request\":");
        reveal(compact);
    }
    lemma_request_compact(f.metadata_request);
    assert(compact("}"@, 1)) by {
        reveal_strlit("}");
        reveal(compact);
    }
    let a0 = "{\"version\":"@;
    let a1 = a0 + decimal(f.version as nat);
    lemma_compact_cat(a0, 11, decimal(f.version as nat), 20);
    let a2 = a1 + ",\"claim\":"@;
    lemma_compact_cat(a1, 31, ",\"claim\":"@, 9);
    let a3 = a2 + request_json(f.claim);
    lemma_compact_cat(a2, 40, request_json(f.claim), 870);
    let a4 = a3 + ",\"metadata_request\":"@;
    lemma_compact_cat(a3, 910, ",\"metadata_request\":"@, 20);
    let a5 = a4 + request_json(f.metadata_request);
    lemma_compact_cat(a4, 930, request_json(f.metadata_request), 870);
    let a6 = a5 + "}"@;
    lemma_compact_cat(a5, 1800, "}"@, 1);
    lemma_compact_bytes(forget_json(f), 1801);
}

} // verus!
