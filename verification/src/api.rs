//! Public HTTP wire models. Wire shapes only; bounds, ownership and lifecycle
//! checks remain in admission.
use crate::canonical::{keys_once, member_views, Json};
use crate::document::{
    copy_json, copy_optional, doc, docs, entries, lemma_decimal_digits, lemma_docs, lemma_entries, same_optional, Doc,
};
use crate::document_laws::well_formed;
use crate::encoding_laws::lemma_numeral_characters;
use crate::guest_model::{copy_pairs, copy_text, copy_texts};
use crate::json::{decimal, decimal_text, signed_decimal, signed_text};
use vstd::prelude::*;
use vstd::string::*;

verus! {

#[derive(Debug, Clone, Copy, PartialEq, Eq, Structural)]
pub struct RequestedResources {
    pub vcpu: i32,
    pub memory_mib: i64,
    pub disk_mib: i64,
}

#[derive(Debug)]
pub struct CreateRequest {
    pub image_digest: String,
    pub name: Option<String>,
    pub resources: RequestedResources,
    pub correlation_id: Option<String>,
}

impl Clone for CreateRequest {
    fn clone(&self) -> (r: Self)
        ensures
            r == *self,
    {
        CreateRequest {
            image_digest: self.image_digest.clone(),
            name: copy_text(&self.name),
            resources: self.resources,
            correlation_id: copy_text(&self.correlation_id),
        }
    }
}

/// A command as a caller asks for it. The environment comes in any order, and no
/// variable of it is set twice.
pub struct CommandInput {
    pub argv: Vec<String>,
    pub env: Vec<(String, String)>,
    pub cwd: String,
    pub deadline_unix_ms: i64,
    pub output_limit: u64,
}

/// The same command, field by field.
pub open spec fn same_command(a: CommandInput, b: CommandInput) -> bool {
    a == (CommandInput { argv: a.argv, env: a.env, ..b }) && a.argv@ == b.argv@ && a.env@ == b.env@
}

impl Clone for CommandInput {
    fn clone(&self) -> (r: Self)
        ensures
            same_command(r, *self),
            self.well_formed() ==> r.well_formed(),
    {
        CommandInput {
            argv: copy_texts(&self.argv),
            env: copy_pairs(&self.env),
            cwd: self.cwd.clone(),
            deadline_unix_ms: self.deadline_unix_ms,
            output_limit: self.output_limit,
        }
    }
}

/// The environment of a command that names none.
pub fn command_input_env_default() -> (r: Vec<(String, String)>)
    ensures
        r@.len() == 0,
{
    Vec::new()
}

/// The working directory of a command that names none.
pub fn command_input_cwd_default() -> (r: String)
    ensures
        r@ == "/"@,
{
    "/".to_owned()
}

/// The output limit of a command that names none.
pub fn command_input_output_limit_default() -> (r: u64)
    ensures
        r == 1048576,
{
    1048576
}

/// Whether the response of an operation has expired, where nothing says so.
pub fn operation_body_response_expired_default() -> (r: bool)
    ensures
        !r,
{
    false
}

/// A JSON string holding the text.
pub open spec fn json_text(value: Json, text: Seq<char>) -> bool {
    value matches Json::Text(t) && t@ == text
}

/// A JSON number with the given numeral.
pub open spec fn json_numeral(value: Json, numeral: Seq<char>) -> bool {
    value matches Json::Number(n) && n@ == numeral
}

/// A JSON string, or null where there is no text.
pub open spec fn json_optional(value: Json, text: Option<String>) -> bool {
    match text {
        Some(t) => json_text(value, t@),
        None => value == Json::Null,
    }
}

fn optional_text(text: &Option<String>) -> (r: Json)
    ensures
        json_optional(r, *text),
{
    match text {
        Some(t) => Json::Text(t.clone()),
        None => Json::Null,
    }
}

/// The members of an object, by position: key texts and values.
pub open spec fn object_keys(value: Json, keys: Seq<Seq<char>>) -> bool {
    value matches Json::Object(m) && m@.len() == keys.len() && forall|i: int|
        0 <= i < keys.len() ==> (#[trigger] m@[i]).0@ == keys[i]
}

pub open spec fn member(value: Json, i: int) -> Json {
    value->Object_0@[i].1
}

/// The document of requested resources.
pub open spec fn resources_document(r: RequestedResources, value: Json) -> bool {
    &&& object_keys(value, seq!["vcpu"@, "memory_mib"@, "disk_mib"@])
    &&& json_numeral(member(value, 0), signed_decimal(r.vcpu as int))
    &&& json_numeral(member(value, 1), signed_decimal(r.memory_mib as int))
    &&& json_numeral(member(value, 2), signed_decimal(r.disk_mib as int))
}

/// The document of a create request: every field, absent ones as null.
pub open spec fn create_document(c: CreateRequest, value: Json) -> bool {
    &&& object_keys(value, seq!["image_digest"@, "name"@, "resources"@, "correlation_id"@])
    &&& json_text(member(value, 0), c.image_digest@)
    &&& json_optional(member(value, 1), c.name)
    &&& resources_document(c.resources, member(value, 2))
    &&& json_optional(member(value, 3), c.correlation_id)
}

impl RequestedResources {
    pub fn document(&self) -> (r: Json)
        ensures
            resources_document(*self, r),
            well_formed(r@),
    {
        let mut members: Vec<(String, Json)> = Vec::new();
        members.push(("vcpu".to_owned(), Json::Number(signed_text(self.vcpu as i64))));
        members.push(("memory_mib".to_owned(), Json::Number(signed_text(self.memory_mib))));
        members.push(("disk_mib".to_owned(), Json::Number(signed_text(self.disk_mib))));
        let document: Json = Json::Object(members);
        proof {
            lemma_resources_document(*self, document);
        }
        document
    }
}

impl CreateRequest {
    /// The normalized document that the request's digest covers.
    pub fn document(&self) -> (r: Json)
        ensures
            create_document(*self, r),
            well_formed(r@),
    {
        let mut members: Vec<(String, Json)> = Vec::new();
        members.push(("image_digest".to_owned(), Json::Text(self.image_digest.clone())));
        members.push(("name".to_owned(), optional_text(&self.name)));
        members.push(("resources".to_owned(), self.resources.document()));
        members.push(("correlation_id".to_owned(), optional_text(&self.correlation_id)));
        let document: Json = Json::Object(members);
        proof {
            lemma_create_document(*self, document);
        }
        document
    }
}

/// A list of JSON strings.
pub open spec fn json_texts(value: Json, values: Seq<String>) -> bool {
    value matches Json::List(items) && items@.len() == values.len() && forall|i: int|
        0 <= i < values.len() ==> json_text(#[trigger] items@[i], values[i]@)
}

/// An object of JSON strings.
pub open spec fn json_pairs(value: Json, pairs: Seq<(String, String)>) -> bool {
    value matches Json::Object(m) && m@.len() == pairs.len() && forall|i: int|
        0 <= i < pairs.len() ==> (#[trigger] m@[i]).0@ == pairs[i].0@ && json_text(m@[i].1, pairs[i].1@)
}

/// The document of a command: every field, defaults filled in.
pub open spec fn command_document(c: CommandInput, value: Json) -> bool {
    &&& object_keys(value, seq!["argv"@, "env"@, "cwd"@, "deadline_unix_ms"@, "output_limit"@])
    &&& json_texts(member(value, 0), c.argv@)
    &&& json_pairs(member(value, 1), c.env@)
    &&& json_text(member(value, 2), c.cwd@)
    &&& json_numeral(member(value, 3), signed_decimal(c.deadline_unix_ms as int))
    &&& json_numeral(member(value, 4), decimal(c.output_limit as nat))
}

/// An object with distinct keys and well-formed values is well formed.
proof fn lemma_object_document(value: Json, keys: Seq<Seq<char>>)
    requires
        object_keys(value, keys),
        forall|i: int, j: int| 0 <= i < j < keys.len() ==> (#[trigger] keys[i]) != (#[trigger] keys[j]),
        forall|i: int| 0 <= i < keys.len() ==> well_formed(#[trigger] member(value, i)@),
    ensures
        well_formed(value@),
{
    let m = value->Object_0@;
    lemma_entries(m);
    let e = entries(m);
    assert(value@ == Doc::Object(e));
    assert forall|i: int| 0 <= i < e.len() implies well_formed((#[trigger] e[i]).1) by {
        assert(e[i].1 == member(value, i)@);
    }
    assert forall|i: int, j: int| 0 <= i < j < e.len() implies (#[trigger] e[i]).0 != (#[trigger] e[j]).0 by {
        assert(m[i].0@ == keys[i] && m[j].0@ == keys[j]);
    }
}

proof fn lemma_numeral_document(value: Json, n: int)
    requires
        json_numeral(value, signed_decimal(n)),
    ensures
        well_formed(value@),
{
    lemma_numeral_characters(n);
    lemma_decimal_digits(if n < 0 { (-n) as nat } else { n as nat });
    assert('0' <= signed_decimal(n).last() <= '9');
}

proof fn lemma_resources_document(r: RequestedResources, value: Json)
    requires
        resources_document(r, value),
    ensures
        well_formed(value@),
{
    reveal_strlit("vcpu");
    reveal_strlit("memory_mib");
    reveal_strlit("disk_mib");
    lemma_numeral_document(member(value, 0), r.vcpu as int);
    lemma_numeral_document(member(value, 1), r.memory_mib as int);
    lemma_numeral_document(member(value, 2), r.disk_mib as int);
    assert("vcpu"@.len() == 4 && "memory_mib"@.len() == 10 && "disk_mib"@.len() == 8);
    lemma_object_document(value, seq!["vcpu"@, "memory_mib"@, "disk_mib"@]);
}

proof fn lemma_create_document(c: CreateRequest, value: Json)
    requires
        create_document(c, value),
    ensures
        well_formed(value@),
{
    reveal_strlit("image_digest");
    reveal_strlit("name");
    reveal_strlit("resources");
    reveal_strlit("correlation_id");
    lemma_resources_document(c.resources, member(value, 2));
    assert("image_digest"@.len() == 12 && "name"@.len() == 4 && "resources"@.len() == 9 && "correlation_id"@.len() == 14);
    lemma_object_document(value, seq!["image_digest"@, "name"@, "resources"@, "correlation_id"@]);
}

proof fn lemma_command_document(c: CommandInput, value: Json)
    requires
        command_document(c, value),
        c.well_formed(),
    ensures
        well_formed(value@),
{
    reveal_strlit("argv");
    reveal_strlit("env");
    reveal_strlit("cwd");
    reveal_strlit("deadline_unix_ms");
    reveal_strlit("output_limit");
    let argv = member(value, 0);
    lemma_docs(argv->List_0@);
    assert(well_formed(argv@)) by {
        let items = docs(argv->List_0@);
        assert forall|i: int| 0 <= i < items.len() implies well_formed(#[trigger] items[i]) by {
            assert(items[i] == doc(argv->List_0@[i]));
            assert(json_text(argv->List_0@[i], c.argv@[i]@));
        }
    }
    let env = member(value, 1);
    let m = env->Object_0@;
    lemma_entries(m);
    assert(well_formed(env@)) by {
        let e = entries(m);
        let views = member_views(c.env@);
        assert forall|i: int| 0 <= i < e.len() implies well_formed((#[trigger] e[i]).1) by {
            assert(m[i].0@ == c.env@[i].0@);
        }
        assert forall|i: int, j: int| 0 <= i < j < e.len() implies (#[trigger] e[i]).0 != (#[trigger] e[j]).0 by {
            assert(m[i].0@ == c.env@[i].0@ && m[j].0@ == c.env@[j].0@);
            assert(views[i].0 != views[j].0);
        }
    }
    lemma_numeral_document(member(value, 3), c.deadline_unix_ms as int);
    lemma_numeral_document(member(value, 4), c.output_limit as int);
    assert("argv"@.len() == 4 && "deadline_unix_ms"@.len() == 16 && "output_limit"@.len() == 12);
    assert("env"@.len() == 3 && "cwd"@.len() == 3 && "env"@[0] != "cwd"@[0]);
    lemma_object_document(value, seq!["argv"@, "env"@, "cwd"@, "deadline_unix_ms"@, "output_limit"@]);
}

impl CommandInput {
    /// No variable of the environment is set twice.
    pub open spec fn well_formed(&self) -> bool {
        keys_once(self.env@)
    }

    /// The normalized document that the request's digest covers.
    pub fn document(&self) -> (r: Json)
        ensures
            command_document(*self, r),
            self.well_formed() ==> well_formed(r@),
    {
        let mut argv: Vec<Json> = Vec::new();
        let mut i: usize = 0;
        while i < self.argv.len()
            invariant
                i <= self.argv@.len(),
                argv@.len() == i,
                forall|j: int| 0 <= j < i ==> json_text(#[trigger] argv@[j], self.argv@[j]@),
            decreases self.argv@.len() - i,
        {
            argv.push(Json::Text(self.argv[i].clone()));
            i = i + 1;
        }
        let mut env: Vec<(String, Json)> = Vec::new();
        let mut k: usize = 0;
        while k < self.env.len()
            invariant
                k <= self.env@.len(),
                env@.len() == k,
                forall|j: int|
                    0 <= j < k ==> (#[trigger] env@[j]).0@ == self.env@[j].0@ && json_text(env@[j].1, self.env@[j].1@),
            decreases self.env@.len() - k,
        {
            env.push((self.env[k].0.clone(), Json::Text(self.env[k].1.clone())));
            k = k + 1;
        }
        let mut members: Vec<(String, Json)> = Vec::new();
        members.push(("argv".to_owned(), Json::List(argv)));
        members.push(("env".to_owned(), Json::Object(env)));
        members.push(("cwd".to_owned(), Json::Text(self.cwd.clone())));
        members.push(("deadline_unix_ms".to_owned(), Json::Number(signed_text(self.deadline_unix_ms))));
        members.push(("output_limit".to_owned(), Json::Number(decimal_text(self.output_limit))));
        let document: Json = Json::Object(members);
        proof {
            if self.well_formed() {
                lemma_command_document(*self, document);
            }
        }
        document
    }

    /// The form for a log line: nothing of the command.
    pub fn debug_text(&self) -> (r: String)
        ensures
            r@ == "CommandInput { .. }"@,
    {
        "CommandInput { .. }".to_owned()
    }
}

#[derive(Debug)]
pub struct DestroyRequest {
    pub correlation_id: Option<String>,
}

impl Clone for DestroyRequest {
    fn clone(&self) -> (r: Self)
        ensures
            r == *self,
    {
        DestroyRequest { correlation_id: copy_text(&self.correlation_id) }
    }
}

impl DestroyRequest {
    /// The normalized document that the request's digest covers.
    pub fn document(&self) -> (r: Json)
        ensures
            object_keys(r, seq!["correlation_id"@]),
            json_optional(member(r, 0), self.correlation_id),
            well_formed(r@),
    {
        let mut members: Vec<(String, Json)> = Vec::new();
        members.push(("correlation_id".to_owned(), optional_text(&self.correlation_id)));
        let document: Json = Json::Object(members);
        proof {
            lemma_object_document(document, seq!["correlation_id"@]);
        }
        document
    }
}

#[derive(Debug)]
pub struct CancelRequest {}

impl Clone for CancelRequest {
    fn clone(&self) -> (r: Self)
        ensures
            r == *self,
    {
        CancelRequest {}
    }
}

impl CancelRequest {
    /// The normalized document that the request's digest covers.
    pub fn document(&self) -> (r: Json)
        ensures
            object_keys(r, seq![]),
            well_formed(r@),
    {
        let document: Json = Json::Object(Vec::new());
        proof {
            lemma_object_document(document, seq![]);
        }
        document
    }
}

#[derive(Debug)]
pub struct AdmittedResponse {
    pub sandbox_id: String,
    pub operation_id: String,
    pub status: String,
    pub status_url: String,
}

impl Clone for AdmittedResponse {
    fn clone(&self) -> (r: Self)
        ensures
            r == *self,
    {
        AdmittedResponse {
            sandbox_id: self.sandbox_id.clone(),
            operation_id: self.operation_id.clone(),
            status: self.status.clone(),
            status_url: self.status_url.clone(),
        }
    }
}

#[derive(Debug)]
pub struct ProblemBody {
    pub operation_id: Option<String>,
    pub title: String,
    pub status: u16,
    pub code: String,
}

impl Clone for ProblemBody {
    fn clone(&self) -> (r: Self)
        ensures
            r == *self,
    {
        ProblemBody {
            operation_id: copy_text(&self.operation_id),
            title: self.title.clone(),
            status: self.status,
            code: self.code.clone(),
        }
    }
}

#[derive(Debug)]
pub struct OperationBody {
    pub response_expired: bool,
    pub operation_id: String,
    pub sandbox_id: String,
    pub target_operation_id: Option<String>,
    pub kind: String,
    pub status: String,
    pub phase: Option<String>,
    pub output_status: Option<String>,
    pub result: Option<Json>,
    pub error: Option<Json>,
    pub created_at: String,
    pub completed_at: Option<String>,
}

/// The same operation: every field is equal, and the documents say the same.
pub open spec fn same_operation(a: OperationBody, b: OperationBody) -> bool {
    &&& a == (OperationBody { result: a.result, error: a.error, ..b })
    &&& same_optional(a.result, b.result)
    &&& same_optional(a.error, b.error)
}

impl Clone for OperationBody {
    fn clone(&self) -> (r: Self)
        ensures
            same_operation(r, *self),
    {
        OperationBody {
            response_expired: self.response_expired,
            operation_id: self.operation_id.clone(),
            sandbox_id: self.sandbox_id.clone(),
            target_operation_id: copy_text(&self.target_operation_id),
            kind: self.kind.clone(),
            status: self.status.clone(),
            phase: copy_text(&self.phase),
            output_status: copy_text(&self.output_status),
            result: copy_optional(&self.result),
            error: copy_optional(&self.error),
            created_at: self.created_at.clone(),
            completed_at: copy_text(&self.completed_at),
        }
    }
}

#[derive(Debug)]
pub struct SandboxBody {
    pub observation_simulated: Option<bool>,
    pub sandbox_id: String,
    pub name: Option<String>,
    pub desired_state: String,
    pub observed_state: String,
    pub observed_at: Option<String>,
    pub image_digest: String,
    pub resources: Json,
    pub generation: i64,
    pub active_operation_id: Option<String>,
    pub created_at: String,
}

/// The same sandbox: every field is equal, and the resources say the same.
pub open spec fn same_sandbox(a: SandboxBody, b: SandboxBody) -> bool {
    a == (SandboxBody { resources: a.resources, ..b }) && a.resources@ == b.resources@
}

impl Clone for SandboxBody {
    fn clone(&self) -> (r: Self)
        ensures
            same_sandbox(r, *self),
    {
        SandboxBody {
            observation_simulated: self.observation_simulated,
            sandbox_id: self.sandbox_id.clone(),
            name: copy_text(&self.name),
            desired_state: self.desired_state.clone(),
            observed_state: self.observed_state.clone(),
            observed_at: copy_text(&self.observed_at),
            image_digest: self.image_digest.clone(),
            resources: copy_json(&self.resources),
            generation: self.generation,
            active_operation_id: copy_text(&self.active_operation_id),
            created_at: self.created_at.clone(),
        }
    }
}

#[derive(Debug)]
pub struct SandboxList {
    pub items: Vec<SandboxBody>,
    pub next_cursor: Option<String>,
}

impl Clone for SandboxList {
    fn clone(&self) -> (r: Self)
        ensures
            r.items@.len() == self.items@.len(),
            forall|i: int| 0 <= i < r.items@.len() ==> same_sandbox(#[trigger] r.items@[i], self.items@[i]),
            r.next_cursor == self.next_cursor,
    {
        let mut items: Vec<SandboxBody> = Vec::new();
        let mut k: usize = 0;
        while k < self.items.len()
            invariant
                k <= self.items@.len(),
                items@.len() == k,
                forall|i: int| 0 <= i < k ==> same_sandbox(#[trigger] items@[i], self.items@[i]),
            decreases self.items@.len() - k,
        {
            items.push(self.items[k].clone());
            k = k + 1;
        }
        SandboxList { items, next_cursor: copy_text(&self.next_cursor) }
    }
}

#[derive(Debug)]
pub struct OperationList {
    pub items: Vec<OperationBody>,
    pub next_cursor: Option<String>,
}

impl Clone for OperationList {
    fn clone(&self) -> (r: Self)
        ensures
            r.items@.len() == self.items@.len(),
            forall|i: int| 0 <= i < r.items@.len() ==> same_operation(#[trigger] r.items@[i], self.items@[i]),
            r.next_cursor == self.next_cursor,
    {
        let mut items: Vec<OperationBody> = Vec::new();
        let mut k: usize = 0;
        while k < self.items.len()
            invariant
                k <= self.items@.len(),
                items@.len() == k,
                forall|i: int| 0 <= i < k ==> same_operation(#[trigger] items@[i], self.items@[i]),
            decreases self.items@.len() - k,
        {
            items.push(self.items[k].clone());
            k = k + 1;
        }
        OperationList { items, next_cursor: copy_text(&self.next_cursor) }
    }
}

#[derive(Debug)]
pub struct FileCaptureRequest {
    pub path: String,
}

impl Clone for FileCaptureRequest {
    fn clone(&self) -> (r: Self)
        ensures
            r == *self,
    {
        FileCaptureRequest { path: self.path.clone() }
    }
}

#[derive(Debug)]
pub struct FileCaptureResponse {
    pub capture: String,
    pub size: u64,
    pub sha256: String,
    pub expires_unix_ms: i64,
    pub chunk_size: u32,
    pub simulated: bool,
    pub guest_reported: bool,
}

impl Clone for FileCaptureResponse {
    fn clone(&self) -> (r: Self)
        ensures
            r == *self,
    {
        FileCaptureResponse {
            capture: self.capture.clone(),
            size: self.size,
            sha256: self.sha256.clone(),
            expires_unix_ms: self.expires_unix_ms,
            chunk_size: self.chunk_size,
            simulated: self.simulated,
            guest_reported: self.guest_reported,
        }
    }
}

#[derive(Debug, Clone, Copy, PartialEq, Eq, Structural)]
pub struct OutputStats {
    pub seen: u64,
    pub stored: u64,
    pub truncated: bool,
}

#[derive(Debug)]
pub struct OutputEvent {
    pub stream: String,
    pub offset: u64,
    pub next_offset: u64,
    pub data_base64: String,
    pub at_end: bool,
    pub complete: bool,
    pub seen: u64,
    pub stored: u64,
    pub truncated: bool,
    pub simulated: bool,
    pub guest_reported: bool,
}

impl Clone for OutputEvent {
    fn clone(&self) -> (r: Self)
        ensures
            r == *self,
    {
        OutputEvent {
            stream: self.stream.clone(),
            offset: self.offset,
            next_offset: self.next_offset,
            data_base64: self.data_base64.clone(),
            at_end: self.at_end,
            complete: self.complete,
            seen: self.seen,
            stored: self.stored,
            truncated: self.truncated,
            simulated: self.simulated,
            guest_reported: self.guest_reported,
        }
    }
}

#[derive(Debug)]
pub struct EndEvent {
    pub reason: String,
    pub stdout: OutputStats,
    pub stderr: OutputStats,
    pub simulated: bool,
    pub guest_reported: bool,
}

impl Clone for EndEvent {
    fn clone(&self) -> (r: Self)
        ensures
            r == *self,
    {
        EndEvent {
            reason: self.reason.clone(),
            stdout: self.stdout,
            stderr: self.stderr,
            simulated: self.simulated,
            guest_reported: self.guest_reported,
        }
    }
}

#[derive(Debug)]
pub struct StreamProblemEvent {
    pub code: String,
}

impl Clone for StreamProblemEvent {
    fn clone(&self) -> (r: Self)
        ensures
            r == *self,
    {
        StreamProblemEvent { code: self.code.clone() }
    }
}

} // verus!
