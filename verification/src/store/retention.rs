//! Operator-owned response retention. Expiry hides a terminal response; it
//! never authorizes deletion of retry keys, payloads or reconciliation evidence.
use vstd::prelude::*;

verus! {

#[derive(Debug, Clone, Copy, PartialEq, Eq, Structural)]
pub struct ResponseRetention(u32);

impl View for ResponseRetention {
    type V = int;

    closed spec fn view(&self) -> int {
        self.0 as int
    }
}

impl ResponseRetention {
    #[verifier::type_invariant]
    spec fn in_range(self) -> bool {
        1 <= self.0 <= 31536000
    }

    /// Explicit policy between one second and 365 days. No implicit default.
    pub fn new(seconds: u32) -> (r: Option<Self>)
        ensures
            match r {
                Some(p) => 1 <= seconds <= 31536000 && p@ == seconds,
                None => !(1 <= seconds <= 31536000),
            },
    {
        if seconds < 1 || seconds > 31536000 {
            return None;
        }
        Some(ResponseRetention(seconds))
    }

    /// How long a response is kept from confirmed completion.
    pub fn seconds(&self) -> (r: u32)
        ensures
            r == self@,
            1 <= r <= 31536000,
    {
        proof {
            use_type_invariant(self);
        }
        self.0
    }
}

} // verus!
