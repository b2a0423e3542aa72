//! Compacting expired responses: what is kept of a command, and what is left for
//! later.
use crate::api::CommandInput;
use crate::document::{field, Doc};
use crate::ids::id_text;
use crate::store::compaction::{
    command_kept, command_summarized, compaction_decided, request_validated, CommandColumns, CommandSummary, CompactionStep,
    RequestColumns,
};
use crate::store::output::{Column, OutputError};
use crate::store::retries::request_digest;
use vstd::prelude::*;

verus! {

/// The kinds of request, those who make them, and two states of output are apart.
proof fn lemma_request_words()
    ensures
        "create"@ != "execute"@,
        "create"@ != "cancel"@,
        "create"@ != "destroy"@,
        "execute"@ != "cancel"@,
        "execute"@ != "destroy"@,
        "cancel"@ != "destroy"@,
        "project"@ != "admin"@,
        "project"@ != "service"@,
        "admin"@ != "service"@,
        "pending"@ != "expired"@,
{
    reveal_strlit("create");
    reveal_strlit("execute");
    reveal_strlit("cancel");
    reveal_strlit("destroy");
    reveal_strlit("project");
    reveal_strlit("admin");
    reveal_strlit("service");
    reveal_strlit("pending");
    reveal_strlit("expired");
    assert("create"@.len() == 6);
    assert("execute"@.len() == 7);
    assert("cancel"@.len() == 6);
    assert("destroy"@.len() == 7);
    assert("project"@.len() == 7);
    assert("admin"@.len() == 5);
    assert("service"@.len() == 7);
    assert("pending"@.len() == 7);
    assert("expired"@.len() == 7);
    assert("create"@[1] != "cancel"@[1]);
    assert("execute"@[0] != "destroy"@[0]);
    assert("project"@[0] != "service"@[0]);
    assert("pending"@[0] != "expired"@[0]);
}

/// What is known of a command whose bodies are still there is what they say; of one
/// that was compacted, the summary that was kept, while it is intact and the body is
/// gone.
pub proof fn commands_are_known_by_body_or_summary(c: &CommandColumns, r: Result<CommandSummary, OutputError>)
    requires
        command_summarized(c, r),
    ensures
        c.compacted ==> (r is Ok <==> (c.summary matches Column::Value(s) && s.version == 1 && s.deadline_unix_ms > 0
            && s.output_limit <= 10485760 && c.payload@ == Doc::Object(Seq::<(Seq<char>, Doc)>::empty()))),
        c.compacted && r is Ok ==> c.summary == Column::Value(r->Ok_0),
        !c.compacted ==> (r is Ok <==> (c.command matches Some(input) && input.output_limit <= 10485760
            && c.guest_accepts && c.digest is Some)),
        !c.compacted ==> (r matches Ok(s) ==> s.version == 1 && Some(s.digest) == c.digest && s.deadline_unix_ms
            == c.command->0.deadline_unix_ms && s.output_limit == c.command->0.output_limit),
        r is Err ==> r == Err::<CommandSummary, OutputError>(OutputError::Corrupt),
{
}

/// A stored request is intact exactly where its digest, under today's normalization,
/// is that of the request that its columns spell out: a customer's create, execute or
/// destroy, a project's cancel, or the service's own cleanup.
pub proof fn stored_requests_are_held_to_their_digest(c: &RequestColumns, r: Result<(), OutputError>)
    requires
        request_validated(c, r),
    ensures
        ({
            let customers = c.initiator@ == "project"@ || c.initiator@ == "admin"@;
            let sandbox = "/v1/sandboxes/"@ + id_text("sbx"@, c.sandbox_id.value);
            let now = c.digest_version == 1;
            &&& c.kind@ == "create"@ && customers ==> (r is Ok <==> now && c.request_digest@ == request_digest(
                "POST"@,
                "/v1/sandboxes"@,
                c.payload@,
            )@)
            &&& c.kind@ == "execute"@ && customers ==> (r is Ok <==> now && c.request_digest@ == request_digest(
                "POST"@,
                sandbox + "/execute"@,
                c.payload@,
            )@)
            &&& c.kind@ == "cancel"@ && c.initiator@ == "project"@ && c.target_operation_id is Some ==> (r is Ok <==> now
                && c.request_digest@ == request_digest(
                "POST"@,
                "/v1/operations/"@ + id_text("op"@, c.target_operation_id->0.value) + "/cancel"@,
                c.payload@,
            )@)
            &&& c.kind@ == "cancel"@ && c.target_operation_id is None ==> r is Err
            &&& c.kind@ == "destroy"@ && customers && field(c.payload@, "correlation_id"@) is Some ==> (r is Ok <==> now
                && c.request_digest@ == request_digest(
                "POST"@,
                sandbox + "/destroy"@,
                Doc::Object(seq![("correlation_id"@, field(c.payload@, "correlation_id"@)->0)]),
            )@)
            &&& c.kind@ == "destroy"@ && customers && field(c.payload@, "correlation_id"@) is None ==> r is Err
            &&& c.kind@ == "destroy"@ && c.initiator@ == "service"@ ==> (r is Ok <==> now && c.request_digest@
                == request_digest("SERVICE"@, "/allocation-cleanup"@, c.payload@)@)
            &&& !customers && c.initiator@ != "service"@ ==> r is Err
            &&& !now ==> r is Err
        }),
        r is Err ==> r == Err::<(), OutputError>(OutputError::Corrupt),
{
    lemma_request_words();
    if field(c.payload@, "correlation_id"@) is Some {
        let v = field(c.payload@, "correlation_id"@)->0;
        assert(Seq::<(Seq<char>, Doc)>::empty().push(("correlation_id"@, v)) =~= seq![("correlation_id"@, v)]);
    }
}

/// An expired response is compacted where its request is intact, a command's summary
/// can be made, output that is still pending has nothing left to prove, and output
/// that expired was cleaned up; a command keeps its summary and nothing else does.
pub proof fn intact_responses_are_compacted(
    request: &RequestColumns,
    command: &CommandColumns,
    output_status: &str,
    pending: Result<(), OutputError>,
    cleanup: Result<(), OutputError>,
    validated: Result<(), OutputError>,
    summarized: Result<CommandSummary, OutputError>,
    r: Result<CompactionStep, OutputError>,
)
    requires
        compaction_decided(request, command, output_status, pending, cleanup, r),
        request_validated(request, validated),
        command_summarized(command, summarized),
    ensures
        ({
            let known = request.kind@ == "execute"@ ==> summarized is Ok;
            let settled = (output_status@ == "pending"@ ==> pending is Ok) && (output_status@ == "expired"@
                ==> cleanup is Ok);
            &&& (r matches Ok(CompactionStep::Compact(_))) <==> validated is Ok && known && settled
            &&& validated is Err || !known ==> r == Ok::<CompactionStep, OutputError>(CompactionStep::Defer)
        }),
        r matches Ok(CompactionStep::Compact(s)) ==> {
            &&& request.kind@ == "execute"@ ==> s == Some(summarized->Ok_0)
            &&& request.kind@ != "execute"@ ==> s is None
        },
        r matches Err(e) ==> (output_status@ == "pending"@ && pending == Err::<(), OutputError>(e)) || (output_status@
            == "expired"@ && cleanup == Err::<(), OutputError>(e)),
{
    lemma_request_words();
}

/// What is kept of a command is its digest, its deadline and its limit; it is kept
/// exactly where it asks for at most ten MiB of output, the guest accepts it and it has
/// a digest.
pub proof fn kept_commands_hold_their_digest(
    input: CommandInput,
    guest_accepts: bool,
    digest: Option<[u8; 32]>,
    r: Result<CommandSummary, OutputError>,
)
    requires
        command_kept(input, guest_accepts, digest, r),
    ensures
        r is Ok <==> input.output_limit <= 10485760 && guest_accepts && digest is Some,
        r matches Ok(s) ==> s.version == 1 && Some(s.digest) == digest && s.deadline_unix_ms == input.deadline_unix_ms
            && s.output_limit == input.output_limit,
        r matches Err(e) ==> e == OutputError::Corrupt,
{
}

} // verus!
