//! Guest-local retirement barriers. A caller must durably retain outcomes and
//! retire external consumers before requesting one; this type grants no authority.
use crate::guest_model::{context_valid, same_context, Context};
use crate::ids::{is_v7, valid_uuid, Id, OperationId};
use vstd::prelude::*;

verus! {

#[derive(Debug, Clone, Copy, PartialEq, Eq, Structural)]
pub enum Domain {
    Commands,
    Files,
}

/// Why a barrier or binding was refused.
#[derive(Debug, Clone, Copy, PartialEq, Eq, Structural)]
pub enum HistoryError {
    /// History barrier ownership mismatch.
    Ownership,
    /// Invalid history context.
    Context,
    /// Invalid history barrier identity.
    Identity,
    /// Retained context mismatch.
    Retained,
}

/// Closed inclusive prefix in opaque operation-ID order, not a timestamp/TTL.
#[derive(Debug, PartialEq, Eq)]
pub struct Barrier {
    pub version: u32,
    pub context: Context,
    pub domain: Domain,
    pub through: OperationId,
}

pub open spec fn same_barrier(a: Barrier, b: Barrier) -> bool {
    a.version == b.version && same_context(a.context, b.context) && a.domain == b.domain && a.through == b.through
}

/// What checking a barrier against the expected context and domain answers.
pub open spec fn barrier_check(b: Barrier, context: Context, domain: Domain) -> Result<(), HistoryError> {
    if b.version != 1 || b.domain != domain || !same_context(b.context, context) {
        Err(HistoryError::Ownership)
    } else if !context_valid(context) {
        Err(HistoryError::Context)
    } else if !is_v7(b.through.value) {
        Err(HistoryError::Identity)
    } else {
        Ok(())
    }
}

/// The barrier closes the operation.
pub open spec fn covered(b: Barrier, id: OperationId) -> bool {
    id.value <= b.through.value
}

impl Clone for Barrier {
    fn clone(&self) -> (r: Self)
        ensures
            r == *self,
    {
        Barrier { version: self.version, context: self.context.clone(), domain: self.domain, through: self.through }
    }
}

impl Barrier {
    pub fn validate(&self, context: &Context, domain: Domain) -> (r: Result<(), HistoryError>)
        ensures
            r == barrier_check(*self, *context, domain),
    {
        if self.version != 1 || self.domain != domain || !self.context.same(context) {
            return Err(HistoryError::Ownership);
        }
        if !context.is_valid() {
            return Err(HistoryError::Context);
        }
        if !valid_uuid(self.through.uuid()) {
            return Err(HistoryError::Identity);
        }
        Ok(())
    }

    pub fn covers(&self, id: OperationId) -> (r: bool)
        ensures
            r == covered(*self, id),
    {
        id.uuid() <= self.through.uuid()
    }
}

/// A barrier closes an inclusive prefix in identity order: itself, and with any
/// operation every earlier one.
pub proof fn barrier_is_an_inclusive_prefix(b: Barrier, id: OperationId, earlier: OperationId)
    ensures
        covered(b, b.through),
        covered(b, id) && earlier.value <= id.value ==> covered(b, earlier),
        !covered(b, id) <==> id.value > b.through.value,
{
}

/// Read old context files unchanged; upgrading replaces the context itself, so
/// deleting a separate floor file cannot silently restore legacy admission.
/// Older readers reject the upgraded context rather than forgetting the fence.
#[derive(Debug, PartialEq, Eq)]
pub enum Binding {
    Legacy(Context),
    Retired(Barrier),
}

impl Clone for Binding {
    fn clone(&self) -> (r: Self)
        ensures
            r == *self,
    {
        match self {
            Binding::Legacy(context) => Binding::Legacy(context.clone()),
            Binding::Retired(barrier) => Binding::Retired(barrier.clone()),
        }
    }
}

/// What a binding admits: nothing more than the expected context, and the
/// barrier where there is one.
pub open spec fn binding_check(b: Binding, expected: Context, domain: Domain) -> Result<Option<Barrier>, HistoryError> {
    match b {
        Binding::Legacy(context) => if same_context(context, expected) {
            Ok(None)
        } else {
            Err(HistoryError::Retained)
        },
        Binding::Retired(barrier) => match barrier_check(barrier, expected, domain) {
            Ok(_) => Ok(Some(barrier)),
            Err(e) => Err(e),
        },
    }
}

impl Binding {
    pub fn validate(self, expected: &Context, domain: Domain) -> (r: Result<Option<Barrier>, HistoryError>)
        ensures
            r == binding_check(self, *expected, domain),
    {
        match self {
            Binding::Legacy(context) => {
                if context.same(expected) {
                    Ok(None)
                } else {
                    Err(HistoryError::Retained)
                }
            },
            Binding::Retired(barrier) => {
                match barrier.validate(expected, domain) {
                    Ok(_) => Ok(Some(barrier)),
                    Err(e) => Err(e),
                }
            },
        }
    }
}

} // verus!
