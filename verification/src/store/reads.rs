//! Read models for the status routes.
//!
//! Every read is scoped by project in the query itself rather than filtered
//! afterwards. A resource belonging to another project must be indistinguishable
//! from one that does not exist, and the way to guarantee that is for the query
//! never to return it.
use crate::canonical::Json;
use crate::document::{copy_json, copy_optional, same_optional};
use crate::guest_model::copy_text;
use crate::ids::{Id, OperationId, SandboxId};
use crate::store::lists::Position;
use vstd::prelude::*;

verus! {

/// An operation as a caller sees it.
#[derive(Debug)]
pub struct OperationView {
    /// The operation.
    pub id: OperationId,
    /// The sandbox it acts on.
    pub sandbox_id: SandboxId,
    /// What was requested.
    pub kind: String,
    /// Progress: queued, running, succeeded, failed, cancelled, unknown.
    pub status: String,
    /// Finer-grained progress within a status, when there is any.
    pub phase: Option<String>,
    /// Bounded result metadata, once there is a result.
    pub result: Option<Json>,
    /// Why it failed, when it did.
    pub error: Option<Json>,
    /// When it was admitted.
    pub created_at: i128,
    /// When it reached a terminal status.
    pub completed_at: Option<i128>,
}

impl Clone for OperationView {
    fn clone(&self) -> (r: Self)
        ensures
            r == (OperationView { result: r.result, error: r.error, ..*self }),
            same_optional(r.result, self.result),
            same_optional(r.error, self.error),
    {
        OperationView {
            id: self.id,
            sandbox_id: self.sandbox_id,
            kind: self.kind.clone(),
            status: self.status.clone(),
            phase: copy_text(&self.phase),
            result: copy_optional(&self.result),
            error: copy_optional(&self.error),
            created_at: self.created_at,
            completed_at: self.completed_at,
        }
    }
}

impl OperationView {
    /// Where the operation stands in a list.
    pub fn position(&self) -> (r: Position)
        ensures
            r == (Position { created_at: self.created_at, id: self.id.value }),
    {
        Position { created_at: self.created_at, id: self.id.uuid() }
    }
}

/// A sandbox as a caller sees it.
#[derive(Debug)]
pub struct SandboxView {
    /// True for explicitly enabled fake-host observations; absent before confirmation.
    pub observation_simulated: Option<bool>,
    /// The sandbox.
    pub id: SandboxId,
    /// Optional display name.
    pub name: Option<String>,
    /// What the service is trying to reach.
    pub desired_state: String,
    /// What was last confirmed, which is not the same thing.
    pub observed_state: String,
    /// When that observation was made. Absent means nothing has been
    /// confirmed yet, which a caller must be able to tell apart from "just
    /// observed".
    pub observed_at: Option<i128>,
    /// The verified image it boots.
    pub image_digest: String,
    /// Requested size.
    pub resources: Json,
    /// Latest allocation generation.
    pub generation: i64,
    /// The transition currently in progress, if any.
    pub active_transition_operation_id: Option<OperationId>,
    /// When it was created.
    pub created_at: i128,
}

impl Clone for SandboxView {
    fn clone(&self) -> (r: Self)
        ensures
            r == (SandboxView { resources: r.resources, ..*self }),
            r.resources@ == self.resources@,
    {
        SandboxView {
            observation_simulated: self.observation_simulated,
            id: self.id,
            name: copy_text(&self.name),
            desired_state: self.desired_state.clone(),
            observed_state: self.observed_state.clone(),
            observed_at: self.observed_at,
            image_digest: self.image_digest.clone(),
            resources: copy_json(&self.resources),
            generation: self.generation,
            active_transition_operation_id: self.active_transition_operation_id,
            created_at: self.created_at,
        }
    }
}

impl SandboxView {
    /// Where the sandbox stands in a list.
    pub fn position(&self) -> (r: Position)
        ensures
            r == (Position { created_at: self.created_at, id: self.id.value }),
    {
        Position { created_at: self.created_at, id: self.id.uuid() }
    }
}

} // verus!
