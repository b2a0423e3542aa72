//! Exact read scope, derived by a trusted API from authorized execution evidence.
//! This descriptor is not a customer credential or permission to execute.
use crate::allocation_retirement::{bool_json, bool_text};
use crate::command::MAX_OUTPUT;
use crate::json::{signed_decimal, signed_text};
use crate::output::{owner_valid, verdict, InvalidOutput, OutputOwner};
use crate::text::{debug_quote, debug_quoted};
use vstd::prelude::*;
use vstd::string::*;

verus! {

#[derive(Debug, PartialEq, Eq)]
pub struct LiveOutputScope {
    pub version: u32,
    pub owner: OutputOwner,
    pub command_digest: [u8; 32],
    pub output_limit: u64,
    pub deadline_unix_ms: i64,
}

impl Clone for LiveOutputScope {
    fn clone(&self) -> (r: Self)
        ensures
            r == *self,
    {
        LiveOutputScope {
            version: self.version,
            owner: self.owner.clone(),
            command_digest: self.command_digest,
            output_limit: self.output_limit,
            deadline_unix_ms: self.deadline_unix_ms,
        }
    }
}

pub open spec fn live_scope_valid(s: LiveOutputScope) -> bool {
    owner_valid(s.owner) && s.version == 1 && s.deadline_unix_ms > 0 && 1 <= s.output_limit <= MAX_OUTPUT
}

impl LiveOutputScope {
    pub fn validate(&self) -> (r: Result<(), InvalidOutput>)
        ensures
            r == verdict(live_scope_valid(*self)),
    {
        if self.owner.validate().is_err() {
            return Err(InvalidOutput);
        }
        if self.version != 1 || self.deadline_unix_ms <= 0 || self.output_limit < 1 || self.output_limit > MAX_OUTPUT {
            return Err(InvalidOutput);
        }
        Ok(())
    }
}

/// A request to follow a command's output, as far as a log line shows it.
pub struct LiveOutputRequest {
    pub expires_unix_ms: i64,
}

impl LiveOutputRequest {
    pub fn debug_text(&self) -> (r: String)
        ensures
            r@ == "LiveOutputRequest { expires_unix_ms: "@ + signed_decimal(self.expires_unix_ms as int) + ", .. }"@,
    {
        let mut out: String = "LiveOutputRequest { expires_unix_ms: ".to_owned();
        out.append(signed_text(self.expires_unix_ms).as_str());
        out.append(", .. }");
        out
    }
}

/// What a host reports of a followed output, as far as a log line shows it.
pub struct LiveOutputObservation {
    pub host_id: String,
    pub supervisor_epoch: i64,
    pub simulated: bool,
}

impl LiveOutputObservation {
    pub fn debug_text(&self) -> (r: String)
        ensures
            r@ == "LiveOutputObservation { host_id: "@ + debug_quoted(self.host_id@) + ", supervisor_epoch: "@
                + signed_decimal(self.supervisor_epoch as int) + ", simulated: "@ + bool_json(self.simulated)
                + ", .. }"@,
    {
        let mut out: String = "LiveOutputObservation { host_id: ".to_owned();
        out.append(debug_quote(self.host_id.as_str()).as_str());
        out.append(", supervisor_epoch: ");
        out.append(signed_text(self.supervisor_epoch).as_str());
        out.append(", simulated: ");
        out.append(bool_text(self.simulated));
        out.append(", .. }");
        out
    }
}

} // verus!
