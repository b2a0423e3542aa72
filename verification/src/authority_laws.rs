//! What every history of allocation authority transitions keeps.
use crate::allocation_authority::{
    activated, authorized, batch_check, completed_at, completed_by, completion_of, distinct_owners, extended, fenced,
    forgotten, holds, ledger_valid, lemma_batch_ok, lemma_entries_check, lemma_holds_unique, lemma_lookup_at, lookup,
    permit_valid, registered, restored, retained_check, state_valid, with_state, Entry, Error, Ledger, Permit, State,
};
use crate::allocation_retirement::{intent_json, intent_valid, valid_intent_encodes, Intent};
use crate::digest::sha256_of;
use crate::ids::{is_v7, HostId, OperationId};
use vstd::prelude::*;
use vstd::utf8::*;

verus! {

/// A request to change an authority.
pub ghost enum Transition {
    Register(Seq<Permit>),
    Fence(Permit, OperationId),
    Complete(Intent),
    Forget(Intent),
}

/// What a transition makes of a ledger, or why it is refused.
pub open spec fn apply(s: Ledger, t: Transition) -> Result<Ledger, Error> {
    match t {
        Transition::Register(permits) => registered(s, permits),
        Transition::Fence(permit, retirement) => fenced(s, permit, retirement),
        Transition::Complete(intent) => completed_by(s, intent),
        Transition::Forget(intent) => forgotten(s, intent),
    }
}

/// The ledger after a transition: a refused one changes nothing.
pub open spec fn step(s: Ledger, t: Transition) -> Ledger {
    match apply(s, t) {
        Ok(next) => next,
        Err(_) => s,
    }
}

/// The ledger after a history of transitions.
pub open spec fn run(s: Ledger, history: Seq<Transition>) -> Ledger
    decreases history.len(),
{
    if history.len() == 0 {
        s
    } else {
        step(run(s, history.drop_last()), history.last())
    }
}

/// A serial that was registered and is no longer retained.
pub open spec fn closed(s: Ledger, serial: u64) -> bool {
    serial <= s.through && forall|i: int| !holds(s, i, serial)
}

proof fn lemma_lookup_ok(s: Ledger, p: Permit)
    requires
        ledger_valid(s),
        lookup(s, p) is Ok,
    ensures
        0 <= lookup(s, p)->Ok_0 < s.entries.len(),
        s.entries[lookup(s, p)->Ok_0].permit == p,
        permit_valid(p),
        p.host == s.host,
        p.serial <= s.through,
{
    let i = choose|i: int| holds(s, i, p.serial);
    assert(holds(s, i, p.serial));
}

proof fn lemma_completion_valid(s: Ledger, intent: Intent)
    requires
        ledger_valid(s),
        completion_of(intent) is Ok,
        lookup(s, intent.permit) is Ok,
        s.entries[lookup(s, intent.permit)->Ok_0].state == (State::Fenced { retirement: intent.retirement }),
    ensures
        state_valid(completion_of(intent)->Ok_0),
        completion_of(intent)->Ok_0 != (State::Active {}),
{
    lemma_lookup_ok(s, intent.permit);
    assert(state_valid(s.entries[lookup(s, intent.permit)->Ok_0].state));
}

proof fn lemma_with_state(s: Ledger, i: int, state: State)
    requires
        ledger_valid(s),
        0 <= i < s.entries.len(),
        state_valid(state),
    ensures
        ledger_valid(with_state(s, i, state)),
{
    let t = with_state(s, i, state);
    assert(forall|j: int| 0 <= j < s.entries.len() ==> (#[trigger] t.entries[j]).permit == s.entries[j].permit);
}

proof fn lemma_removed(s: Ledger, i: int)
    requires
        ledger_valid(s),
        0 <= i < s.entries.len(),
    ensures
        ledger_valid(Ledger { entries: s.entries.remove(i), ..s }),
{
    let t = Ledger { entries: s.entries.remove(i), ..s };
    assert(forall|j: int|
        0 <= j < t.entries.len() ==> #[trigger] t.entries[j] == (if j < i {
            s.entries[j]
        } else {
            s.entries[j + 1]
        }));
}

/// Every transition keeps the invariant.
pub proof fn transitions_keep_the_invariant(s: Ledger, t: Transition)
    requires
        ledger_valid(s),
    ensures
        ledger_valid(step(s, t)),
{
    match t {
        Transition::Register(permits) => {},
        Transition::Fence(permit, retirement) => {
            if lookup(s, permit) is Ok {
                lemma_lookup_ok(s, permit);
                if fenced(s, permit, retirement) is Ok {
                    lemma_with_state(s, lookup(s, permit)->Ok_0, State::Fenced { retirement });
                }
            }
        },
        Transition::Complete(intent) => {
            if completed_by(s, intent) is Ok {
                lemma_lookup_ok(s, intent.permit);
                let i = lookup(s, intent.permit)->Ok_0;
                if s.entries[i].state == (State::Fenced { retirement: intent.retirement }) {
                    lemma_completion_valid(s, intent);
                    lemma_with_state(s, i, completion_of(intent)->Ok_0);
                }
            }
        },
        Transition::Forget(intent) => {
            if forgotten(s, intent) is Ok {
                lemma_lookup_ok(s, intent.permit);
                lemma_removed(s, lookup(s, intent.permit)->Ok_0);
            }
        },
    }
}

/// Every history keeps the invariant and the host, and never moves the frontier
/// back.
pub proof fn histories_keep_the_invariant(s: Ledger, history: Seq<Transition>)
    requires
        ledger_valid(s),
    ensures
        ledger_valid(run(s, history)),
        run(s, history).host == s.host,
        run(s, history).through >= s.through,
    decreases history.len(),
{
    if history.len() > 0 {
        let before = run(s, history.drop_last());
        histories_keep_the_invariant(s, history.drop_last());
        transitions_keep_the_invariant(before, history.last());
        lemma_frontier(before, history.last());
    }
}

proof fn lemma_frontier(s: Ledger, t: Transition)
    requires
        ledger_valid(s),
    ensures
        step(s, t).through >= s.through,
        step(s, t).host == s.host,
{
    if let Transition::Register(permits) = t {
        if registered(s, permits) is Ok && permits[0].serial > s.through {
            lemma_batch_ok(s.host, permits);
            assert(permits.last() == permits[permits.len() - 1]);
        }
    }
}

proof fn lemma_closed_step(s: Ledger, t: Transition, serial: u64)
    requires
        ledger_valid(s),
        closed(s, serial),
    ensures
        closed(step(s, t), serial),
{
    let n = step(s, t);
    lemma_frontier(s, t);
    assert forall|i: int| !holds(n, i, serial) by {
        if holds(n, i, serial) {
            match t {
                Transition::Register(permits) => {
                    if apply(s, t) is Ok && permits[0].serial > s.through {
                        lemma_batch_ok(s.host, permits);
                        if i < s.entries.len() {
                            assert(n.entries[i] == s.entries[i]);
                            assert(holds(s, i, serial));
                        } else {
                            assert(n.entries[i].permit == permits[i - s.entries.len()]);
                        }
                    } else {
                        assert(holds(s, i, serial));
                    }
                },
                Transition::Forget(intent) => {
                    if apply(s, t) is Ok {
                        let k = completed_at(s, intent)->Ok_0;
                        lemma_lookup_ok(s, intent.permit);
                        if i < k {
                            assert(holds(s, i, serial));
                        } else {
                            assert(holds(s, i + 1, serial));
                        }
                    } else {
                        assert(holds(s, i, serial));
                    }
                },
                Transition::Fence(permit, retirement) => {
                    assert(holds(s, i, serial)) by {
                        if lookup(s, permit) is Ok {
                            lemma_lookup_ok(s, permit);
                        }
                    }
                },
                Transition::Complete(intent) => {
                    assert(holds(s, i, serial)) by {
                        if lookup(s, intent.permit) is Ok {
                            lemma_lookup_ok(s, intent.permit);
                        }
                    }
                },
            }
        }
    }
}

/// A closed serial stays closed whatever follows.
pub proof fn closed_serials_stay_closed(s: Ledger, history: Seq<Transition>, serial: u64)
    requires
        ledger_valid(s),
        closed(s, serial),
    ensures
        closed(run(s, history), serial),
    decreases history.len(),
{
    if history.len() > 0 {
        closed_serials_stay_closed(s, history.drop_last(), serial);
        histories_keep_the_invariant(s, history.drop_last());
        lemma_closed_step(run(s, history.drop_last()), history.last(), serial);
    }
}

/// A permit whose serial is closed is denied as closed.
proof fn lemma_closed_denies(s: Ledger, p: Permit)
    requires
        closed(s, p.serial),
        permit_valid(p),
        p.host == s.host,
    ensures
        lookup(s, p) == Err::<int, Error>(Error::Closed),
{
}

/// Forgetting a completed owner never makes its serial admissible again: after
/// it, and after any history, every well-formed permit of the host with that
/// serial is denied as closed.
pub proof fn forgetting_never_readmits(s: Ledger, intent: Intent, history: Seq<Transition>, p: Permit)
    requires
        ledger_valid(s),
        forgotten(s, intent) is Ok,
        permit_valid(p),
        p.host == s.host,
        p.serial == intent.permit.serial,
    ensures
        authorized(run(forgotten(s, intent)->Ok_0, history), p) == Err::<(), Error>(Error::Closed),
{
    let n = forgotten(s, intent)->Ok_0;
    let k = completed_at(s, intent)->Ok_0;
    lemma_lookup_ok(s, intent.permit);
    lemma_removed(s, k);
    assert forall|i: int| !holds(n, i, p.serial) by {
        if holds(n, i, p.serial) {
            if i < k {
                lemma_holds_unique(s, i, k, p.serial);
            } else {
                lemma_holds_unique(s, i + 1, k, p.serial);
            }
        }
    }
    closed_serials_stay_closed(n, history, p.serial);
    histories_keep_the_invariant(n, history);
    lemma_closed_denies(run(n, history), p);
}

/// The entry that a retained permit keeps across a transition, unless the
/// transition is about that permit.
proof fn lemma_step_keeps(s: Ledger, t: Transition, i: int)
    requires
        ledger_valid(s),
        0 <= i < s.entries.len(),
    ensures
        match lookup(step(s, t), s.entries[i].permit) {
            Ok(j) => {
                &&& step(s, t).entries[j].permit == s.entries[i].permit
                &&& (!about(t, s.entries[i].permit) ==> step(s, t).entries[j] == s.entries[i])
                &&& (s.entries[i].state != (State::Active {}) ==> step(s, t).entries[j].state != (State::Active {}))
            },
            Err(e) => e == Error::Closed && about(t, s.entries[i].permit) && t is Forget,
        },
{
    let n = step(s, t);
    let p = s.entries[i].permit;
    transitions_keep_the_invariant(s, t);
    lemma_lookup_at(s, i);
    match t {
        Transition::Register(permits) => {
            assert(n.entries[i] == s.entries[i]);
            lemma_lookup_at(n, i);
        },
        Transition::Fence(permit, retirement) => {
            if lookup(s, permit) is Ok {
                lemma_lookup_ok(s, permit);
            }
            assert(n.entries[i].permit == p);
            lemma_lookup_at(n, i);
        },
        Transition::Complete(intent) => {
            if lookup(s, intent.permit) is Ok {
                lemma_lookup_ok(s, intent.permit);
            }
            assert(n.entries[i].permit == p);
            lemma_lookup_at(n, i);
        },
        Transition::Forget(intent) => {
            if apply(s, t) is Ok {
                let k = completed_at(s, intent)->Ok_0;
                lemma_lookup_ok(s, intent.permit);
                if i < k {
                    assert(n.entries[i] == s.entries[i]);
                    lemma_lookup_at(n, i);
                } else if i > k {
                    assert(n.entries[i - 1] == s.entries[i]);
                    lemma_lookup_at(n, i - 1);
                } else {
                    assert forall|j: int| !holds(n, j, p.serial) by {
                        if holds(n, j, p.serial) {
                            if j < k {
                                lemma_holds_unique(s, j, k, p.serial);
                            } else {
                                lemma_holds_unique(s, j + 1, k, p.serial);
                            }
                        }
                    }
                    lemma_closed_denies(n, p);
                }
            } else {
                lemma_lookup_at(n, i);
            }
        },
    }
}

/// The transition names the permit.
pub open spec fn about(t: Transition, p: Permit) -> bool {
    match t {
        Transition::Register(permits) => false,
        Transition::Fence(permit, retirement) => permit == p,
        Transition::Complete(intent) => intent.permit == p,
        Transition::Forget(intent) => intent.permit == p,
    }
}

/// A transition leaves every owner that it does not name as it was: in
/// particular an older live owner neither blocks the reclamation of newer ones
/// nor is touched by it, and registering again reactivates nothing.
pub proof fn other_owners_are_untouched(s: Ledger, t: Transition, p: Permit)
    requires
        ledger_valid(s),
        lookup(s, p) is Ok,
        !about(t, p),
    ensures
        lookup(step(s, t), p) is Ok,
        step(s, t).entries[lookup(step(s, t), p)->Ok_0] == s.entries[lookup(s, p)->Ok_0],
{
    lemma_lookup_ok(s, p);
    lemma_step_keeps(s, t, lookup(s, p)->Ok_0);
}

proof fn lemma_denial_step(s: Ledger, t: Transition, p: Permit)
    requires
        ledger_valid(s),
        p.serial <= s.through,
        authorized(s, p) is Err,
    ensures
        authorized(step(s, t), p) is Err,
{
    let n = step(s, t);
    transitions_keep_the_invariant(s, t);
    lemma_frontier(s, t);
    if permit_valid(p) && p.host == s.host {
        if exists|i: int| holds(s, i, p.serial) {
            let i = choose|i: int| holds(s, i, p.serial);
            let q = s.entries[i].permit;
            lemma_lookup_at(s, i);
            lemma_step_keeps(s, t, i);
            if q == p {
                assert(s.entries[i].state != (State::Active {}));
            } else {
                match lookup(n, q) {
                    Ok(j) => {
                        lemma_lookup_ok(n, q);
                        assert(holds(n, j, p.serial));
                        let c = choose|c: int| holds(n, c, p.serial);
                        lemma_holds_unique(n, j, c, p.serial);
                    },
                    Err(_) => {
                        assert forall|c: int| !holds(n, c, p.serial) by {
                            if holds(n, c, q.serial) {
                                let d = choose|d: int| holds(n, d, q.serial);
                                assert(holds(n, d, q.serial));
                            }
                        }
                    },
                }
            }
        } else {
            assert(closed(s, p.serial));
            lemma_closed_step(s, t, p.serial);
            lemma_closed_denies(n, p);
        }
    }
}

/// There is no way back from denial: a permit at or below the frontier that is
/// not authorized is never authorized again, whatever follows. A fence holds
/// for good.
pub proof fn denial_is_final(s: Ledger, history: Seq<Transition>, p: Permit)
    requires
        ledger_valid(s),
        p.serial <= s.through,
        authorized(s, p) is Err,
    ensures
        authorized(run(s, history), p) is Err,
    decreases history.len(),
{
    if history.len() > 0 {
        denial_is_final(s, history.drop_last(), p);
        histories_keep_the_invariant(s, history.drop_last());
        lemma_denial_step(run(s, history.drop_last()), history.last(), p);
    }
}

/// A fence denies its permit at once.
pub proof fn a_fence_denies(s: Ledger, p: Permit, retirement: OperationId)
    requires
        ledger_valid(s),
        fenced(s, p, retirement) is Ok,
    ensures
        authorized(fenced(s, p, retirement)->Ok_0, p) == Err::<(), Error>(Error::Conflict),
{
    let i = lookup(s, p)->Ok_0;
    lemma_lookup_ok(s, p);
    let n = fenced(s, p, retirement)->Ok_0;
    transitions_keep_the_invariant(s, Transition::Fence(p, retirement));
    assert(n.entries[i].permit == p);
    lemma_lookup_at(n, i);
}

/// A serial that was never registered is not authorized.
pub proof fn unregistered_serials_are_denied(s: Ledger, p: Permit)
    requires
        ledger_valid(s),
        permit_valid(p),
        p.host == s.host,
        p.serial > s.through,
    ensures
        authorized(s, p) == Err::<(), Error>(Error::Unregistered),
{
    assert forall|i: int| !holds(s, i, p.serial) by {
        if holds(s, i, p.serial) {
            assert(s.entries[i].permit.serial <= s.through);
        }
    }
}

/// A fresh batch is authorized as a whole, and only the next contiguous serials
/// are a fresh batch.
pub proof fn registration_authorizes_the_batch(s: Ledger, permits: Seq<Permit>, k: int)
    requires
        ledger_valid(s),
        registered(s, permits) is Ok,
        permits[0].serial > s.through,
        0 <= k < permits.len(),
    ensures
        authorized(registered(s, permits)->Ok_0, permits[k]) == Ok::<(), Error>(()),
        permits[k].serial == s.through + 1 + k,
{
    let n = registered(s, permits)->Ok_0;
    lemma_batch_ok(s.host, permits);
    let i = s.entries.len() + k;
    assert(n.entries[i] == activated(permits)[k]);
    lemma_lookup_at(n, i);
}

/// Repeating a registration that succeeded succeeds and changes nothing.
pub proof fn registration_retry_is_harmless(s: Ledger, permits: Seq<Permit>)
    requires
        ledger_valid(s),
        registered(s, permits) is Ok,
    ensures
        registered(registered(s, permits)->Ok_0, permits) == registered(s, permits),
{
    let n = registered(s, permits)->Ok_0;
    if permits[0].serial > s.through {
        lemma_batch_ok(s.host, permits);
        assert(permits.last() == permits[permits.len() - 1]);
        assert forall|k: int| 0 <= k < permits.len() implies lookup(n, #[trigger] permits[k]) is Ok by {
            registration_authorizes_the_batch(s, permits, k);
        }
        lemma_all_retained(n, permits);
    }
}

proof fn lemma_all_retained(s: Ledger, permits: Seq<Permit>)
    requires
        forall|k: int| 0 <= k < permits.len() ==> lookup(s, #[trigger] permits[k]) is Ok,
    ensures
        retained_check(s, permits) == Ok::<(), Error>(()),
    decreases permits.len(),
{
    if permits.len() > 0 {
        let before = permits.drop_last();
        assert(forall|k: int| 0 <= k < before.len() ==> before[k] == permits[k]);
        lemma_all_retained(s, before);
        assert(permits.last() == permits[permits.len() - 1]);
    }
}

/// Repeating a fence that succeeded succeeds and changes nothing.
pub proof fn fence_retry_is_harmless(s: Ledger, p: Permit, retirement: OperationId)
    requires
        ledger_valid(s),
        fenced(s, p, retirement) is Ok,
    ensures
        fenced(fenced(s, p, retirement)->Ok_0, p, retirement) == fenced(s, p, retirement),
{
    let i = lookup(s, p)->Ok_0;
    lemma_lookup_ok(s, p);
    let n = fenced(s, p, retirement)->Ok_0;
    transitions_keep_the_invariant(s, Transition::Fence(p, retirement));
    assert(n.entries[i].permit == p);
    lemma_lookup_at(n, i);
}

/// Repeating a completion that succeeded succeeds and changes nothing, and the
/// completion can be read back.
pub proof fn completion_retry_is_harmless(s: Ledger, intent: Intent)
    requires
        ledger_valid(s),
        completed_by(s, intent) is Ok,
    ensures
        completed_by(completed_by(s, intent)->Ok_0, intent) == completed_by(s, intent),
        completed_at(completed_by(s, intent)->Ok_0, intent) is Ok,
{
    let i = lookup(s, intent.permit)->Ok_0;
    lemma_lookup_ok(s, intent.permit);
    let n = completed_by(s, intent)->Ok_0;
    transitions_keep_the_invariant(s, Transition::Complete(intent));
    assert(n.entries[i].permit == intent.permit);
    lemma_lookup_at(n, i);
}

/// Only a fenced owner is completed, and only a completed one forgotten.
pub proof fn retirement_goes_in_order(s: Ledger, intent: Intent)
    requires
        ledger_valid(s),
        authorized(s, intent.permit) is Ok,
    ensures
        completed_by(s, intent) is Err,
        forgotten(s, intent) is Err,
{
}

/// A saved authority reads back as it was, against any frontier that it has
/// reached.
pub proof fn saved_authority_reads_back(s: Ledger, minimum_through: u64)
    requires
        ledger_valid(s),
        minimum_through <= s.through,
    ensures
        restored(1, s, s.host, minimum_through) == Ok::<Ledger, Error>(s),
{
    lemma_entries_check(s.host, s.through, s.entries);
}

/// What reads back meets the invariant and has reached the frontier asked for.
pub proof fn restored_authority_is_valid(version: u32, s: Ledger, host: crate::ids::HostId, minimum_through: u64)
    requires
        restored(version, s, host, minimum_through) is Ok,
    ensures
        ledger_valid(s),
        s.host == host,
        s.through >= minimum_through,
{
    lemma_entries_check(host, s.through, s.entries);
}

/// A permit is real: of version 7 identities, a real generation and epoch, and a serial
/// that a signed column can hold.
pub proof fn permits_are_real(p: Permit)
    ensures
        permit_valid(p) <==> is_v7(p.host.value) && is_v7(p.project.value) && is_v7(p.sandbox.value) && is_v7(
            p.allocation.value,
        ) && is_v7(p.create_operation.value) && p.generation >= 1 && p.original_epoch >= 1 && 1 <= p.serial
            <= 9223372036854775807,
{
}

/// No two owners share an allocation, a create, or a sandbox at one generation.
pub open spec fn owners_apart(a: Permit, b: Permit) -> bool {
    a.allocation != b.allocation && a.create_operation != b.create_operation && (a.sandbox != b.sandbox || a.generation
        != b.generation)
}

/// The next batch is registered: one to thirty-two real permits of this host, with the
/// serials that follow, while the ledger holds at most 1024, of owners that are all
/// apart. What was there stays, and each new permit is active.
pub proof fn the_next_batch_is_registered(s: Ledger, permits: Seq<Permit>)
    requires
        ledger_valid(s),
        1 <= permits.len() <= 32,
        s.entries.len() + permits.len() <= 1024,
        forall|k: int| 0 <= k < permits.len() ==> {
            let p = #[trigger] permits[k];
            permit_valid(p) && p.host == s.host && p.serial == s.through + 1 + k
        },
        forall|i: int, k: int|
            0 <= i < s.entries.len() && 0 <= k < permits.len() ==> owners_apart(
                (#[trigger] s.entries[i]).permit,
                #[trigger] permits[k],
            ),
        forall|j: int, k: int| 0 <= j < k < permits.len() ==> owners_apart(#[trigger] permits[j], #[trigger] permits[k]),
    ensures
        registered(s, permits) matches Ok(n) && {
            &&& n.host == s.host
            &&& n.through == s.through + permits.len()
            &&& n.entries.len() == s.entries.len() + permits.len()
            &&& forall|i: int| 0 <= i < s.entries.len() ==> #[trigger] n.entries[i] == s.entries[i]
            &&& forall|k: int| 0 <= k < permits.len() ==> {
                let e = #[trigger] n.entries[s.entries.len() + k];
                e.permit == permits[k] && e.state == (State::Active {})
            }
        },
{
    lemma_batch_is_contiguous(s.host, permits, s.through);
    let n = extended(s, permits);
    assert(permits.last() == permits[permits.len() - 1]);
    assert forall|i: int| 0 <= i < s.entries.len() implies #[trigger] n.entries[i] == s.entries[i] by {}
    assert forall|k: int| 0 <= k < permits.len() implies #[trigger] n.entries[s.entries.len() + k] == (Entry {
        permit: permits[k],
        state: State::Active {},
    }) by {
        assert(activated(permits)[k] == (Entry { permit: permits[k], state: State::Active {} }));
    }
    let m = s.entries.len() as int;
    assert forall|i: int| 0 <= i < n.entries.len() implies {
        &&& permit_valid((#[trigger] n.entries[i]).permit)
        &&& n.entries[i].permit.host == n.host
        &&& n.entries[i].permit.serial <= n.through
        &&& state_valid(n.entries[i].state)
    } by {
        if i < m {
            assert(n.entries[i] == s.entries[i]);
        } else {
            assert(n.entries[m + (i - m)].permit == permits[i - m]);
        }
    }
    assert forall|i: int, j: int| 0 <= i < j < n.entries.len() implies {
        &&& (#[trigger] n.entries[i]).permit.serial < (#[trigger] n.entries[j]).permit.serial
        &&& distinct_owners(n.entries[i].permit, n.entries[j].permit)
    } by {
        if i < m {
            assert(n.entries[i] == s.entries[i]);
        } else {
            assert(n.entries[m + (i - m)].permit == permits[i - m]);
        }
        if j < m {
            assert(n.entries[j] == s.entries[j]);
        } else {
            assert(n.entries[m + (j - m)].permit == permits[j - m]);
        }
        if i < m && j >= m {
            assert(owners_apart(s.entries[i].permit, permits[j - m]));
        }
        if i >= m {
            assert(owners_apart(permits[i - m], permits[j - m]));
        }
    }
    assert(ledger_valid(n));
}

proof fn lemma_batch_is_contiguous(host: HostId, permits: Seq<Permit>, through: u64)
    requires
        forall|k: int| 0 <= k < permits.len() ==> {
            let p = #[trigger] permits[k];
            permit_valid(p) && p.host == host && p.serial == through + 1 + k
        },
    ensures
        batch_check(host, permits) == Ok::<(), Error>(()),
    decreases permits.len(),
{
    if permits.len() > 0 {
        let before = permits.drop_last();
        assert forall|k: int| 0 <= k < before.len() implies {
            let p = #[trigger] before[k];
            permit_valid(p) && p.host == host && p.serial == through + 1 + k
        } by {
            assert(before[k] == permits[k]);
        }
        lemma_batch_is_contiguous(host, before, through);
        assert(permits.last() == permits[permits.len() - 1]);
        if before.len() > 0 {
            assert(before.last() == permits[permits.len() - 2]);
        }
    }
}

/// A batch that is empty or too large, that leaves a gap, or that the ledger has no
/// room for is refused for that reason.
pub proof fn misfit_batches_are_refused(s: Ledger, permits: Seq<Permit>)
    requires
        ledger_valid(s),
    ensures
        permits.len() == 0 || permits.len() > 32 ==> registered(s, permits) == Err::<Ledger, Error>(Error::Invalid),
        1 <= permits.len() <= 32 && batch_check(s.host, permits) is Ok && permits[0].serial > s.through + 1
            ==> registered(s, permits) == Err::<Ledger, Error>(Error::RegistrationOrder),
        1 <= permits.len() <= 32 && batch_check(s.host, permits) is Ok && permits[0].serial == s.through + 1
            && s.entries.len() + permits.len() > 1024 ==> registered(s, permits) == Err::<Ledger, Error>(Error::Capacity),
{
}

/// Whether a launch is authorized is what the ledger says of its permit: it is where
/// the permit is there and active; where it is there and no longer active, or where its
/// serial is another's, is closed or was never registered, it is refused for that
/// reason.
pub proof fn active_permits_are_authorized(s: Ledger, p: Permit)
    requires
        ledger_valid(s),
        permit_valid(p),
    ensures
        authorized(s, p) is Ok <==> s.entries.contains(Entry { permit: p, state: State::Active {} }),
        p.host != s.host ==> authorized(s, p) == Err::<(), Error>(Error::Ownership),
        p.host == s.host && (exists|i: int| 0 <= i < s.entries.len() && (#[trigger] s.entries[i]).permit == p
            && s.entries[i].state != (State::Active {})) ==> authorized(s, p) == Err::<(), Error>(Error::Conflict),
        p.host == s.host && (exists|i: int|
            0 <= i < s.entries.len() && (#[trigger] s.entries[i]).permit.serial == p.serial && s.entries[i].permit != p)
            ==> authorized(s, p) == Err::<(), Error>(Error::Ownership),
        p.host == s.host && (forall|i: int|
            0 <= i < s.entries.len() ==> (#[trigger] s.entries[i]).permit.serial != p.serial) ==> authorized(s, p)
            == Err::<(), Error>(
            if p.serial <= s.through {
                Error::Closed
            } else {
                Error::Unregistered
            },
        ),
{
    if authorized(s, p) is Ok {
        lemma_lookup_ok(s, p);
        let i = lookup(s, p)->Ok_0;
        assert(s.entries[i] == (Entry { permit: p, state: State::Active {} }));
    }
    if s.entries.contains(Entry { permit: p, state: State::Active {} }) {
        let i = choose|i: int| 0 <= i < s.entries.len() && s.entries[i] == (Entry { permit: p, state: State::Active {} });
        lemma_lookup_at(s, i);
    }
    if exists|i: int| 0 <= i < s.entries.len() && (#[trigger] s.entries[i]).permit == p && s.entries[i].state != (
    State::Active {}) {
        let i = choose|i: int|
            0 <= i < s.entries.len() && (#[trigger] s.entries[i]).permit == p && s.entries[i].state != (
            State::Active {});
        lemma_lookup_at(s, i);
    }
    if exists|i: int|
        0 <= i < s.entries.len() && (#[trigger] s.entries[i]).permit.serial == p.serial && s.entries[i].permit != p {
        let i = choose|i: int|
            0 <= i < s.entries.len() && (#[trigger] s.entries[i]).permit.serial == p.serial && s.entries[i].permit != p;
        assert(holds(s, i, p.serial));
        let c = choose|c: int| holds(s, c, p.serial);
        lemma_holds_unique(s, i, c, p.serial);
    }
    if forall|i: int| 0 <= i < s.entries.len() ==> (#[trigger] s.entries[i]).permit.serial != p.serial {
        assert forall|i: int| !holds(s, i, p.serial) by {}
    }
}

/// Only the entry at this place differs, and there only the state.
pub open spec fn changed_at(s: Ledger, n: Ledger, i: int, state: State) -> bool {
    &&& n.host == s.host
    &&& n.through == s.through
    &&& n.entries.len() == s.entries.len()
    &&& n.entries[i].permit == s.entries[i].permit
    &&& n.entries[i].state == state
    &&& forall|j: int| 0 <= j < s.entries.len() && j != i ==> #[trigger] n.entries[j] == s.entries[j]
}

/// An active permit is fenced by any retirement, and is then that retirement's; one
/// that was fenced or completed by another stays so.
pub proof fn active_permits_can_be_fenced(s: Ledger, i: int, retirement: OperationId)
    requires
        ledger_valid(s),
        0 <= i < s.entries.len(),
        is_v7(retirement.value),
    ensures
        ({
            let r = fenced(s, s.entries[i].permit, retirement);
            match s.entries[i].state {
                State::Active {} => r matches Ok(n) && changed_at(s, n, i, State::Fenced { retirement }),
                State::Fenced { retirement: by } => if by == retirement {
                    r == Ok::<Ledger, Error>(s)
                } else {
                    r == Err::<Ledger, Error>(Error::Conflict)
                },
                State::Complete { retirement: by, .. } => if by == retirement {
                    r == Ok::<Ledger, Error>(s)
                } else {
                    r == Err::<Ledger, Error>(Error::Conflict)
                },
            }
        }),
{
    lemma_lookup_at(s, i);
}

/// A fenced permit is completed by its own physical retirement, and then holds the
/// digest of exactly that intent; an active one, or one that another retirement holds,
/// is not.
pub proof fn fenced_permits_can_be_completed(s: Ledger, i: int, intent: Intent)
    requires
        ledger_valid(s),
        0 <= i < s.entries.len(),
        intent.permit == s.entries[i].permit,
        intent_valid(intent),
        !intent.simulated,
    ensures
        ({
            let r = completed_by(s, intent);
            let digest = sha256_of(encode_utf8(intent_json(intent)));
            match s.entries[i].state {
                State::Active {} => r == Err::<Ledger, Error>(Error::Conflict),
                State::Fenced { retirement } => if retirement == intent.retirement {
                    r matches Ok(n) && changed_at(
                        s,
                        n,
                        i,
                        State::Complete { retirement: intent.retirement, intent_sha256: digest },
                    )
                } else {
                    r == Err::<Ledger, Error>(Error::Conflict)
                },
                State::Complete { retirement, intent_sha256 } => if retirement == intent.retirement && intent_sha256
                    == digest {
                    r == Ok::<Ledger, Error>(s)
                } else {
                    r == Err::<Ledger, Error>(Error::Conflict)
                },
            }
        }),
{
    lemma_lookup_at(s, i);
    valid_intent_encodes(intent);
}

/// A simulated retirement completes nothing and has nothing forgotten.
pub proof fn simulated_retirements_change_nothing(s: Ledger, intent: Intent)
    requires
        intent.simulated,
    ensures
        completed_by(s, intent) == Err::<Ledger, Error>(Error::Invalid),
        forgotten(s, intent) == Err::<Ledger, Error>(Error::Invalid),
{
}

/// A permit that its own retirement completed is forgotten: its entry goes, every other
/// stays, and the frontier stays; one that was not completed by exactly this intent is
/// not.
pub proof fn completed_permits_can_be_forgotten(s: Ledger, i: int, intent: Intent)
    requires
        ledger_valid(s),
        0 <= i < s.entries.len(),
        intent.permit == s.entries[i].permit,
        intent_valid(intent),
        !intent.simulated,
    ensures
        ({
            let r = forgotten(s, intent);
            let digest = sha256_of(encode_utf8(intent_json(intent)));
            let completed = s.entries[i].state == (State::Complete {
                retirement: intent.retirement,
                intent_sha256: digest,
            });
            &&& !completed ==> r == Err::<Ledger, Error>(Error::Conflict)
            &&& completed ==> (r matches Ok(n) && {
                &&& n.host == s.host
                &&& n.through == s.through
                &&& n.entries.len() == s.entries.len() - 1
                &&& forall|j: int| 0 <= j < i ==> #[trigger] n.entries[j] == s.entries[j]
                &&& forall|j: int| i <= j < n.entries.len() ==> #[trigger] n.entries[j] == s.entries[j + 1]
            })
        }),
{
    lemma_lookup_at(s, i);
    valid_intent_encodes(intent);
}

/// What is read back is of the first version, of this host, and reaches the frontier
/// asked for; anything else is refused.
pub proof fn restored_authority_is_of_this_host(
    version: u32,
    s: Ledger,
    host: HostId,
    minimum_through: u64,
)
    requires
        is_v7(host.value),
    ensures
        version != 1 || s.through < minimum_through || s.through > 9223372036854775807 || s.entries.len() > 1024
            ==> restored(version, s, host, minimum_through) == Err::<Ledger, Error>(Error::Invalid),
        version == 1 && minimum_through <= s.through <= 9223372036854775807 && s.entries.len() <= 1024 && s.host != host
            ==> restored(version, s, host, minimum_through) == Err::<Ledger, Error>(Error::Ownership),
        restored(version, s, host, minimum_through) matches Ok(n) ==> n == s,
{
}

/// No two entries of an authority share an allocation, the operation that created it, or
/// a generation of a sandbox, and their serials rise.
pub proof fn entries_share_no_owner(s: Ledger, i: int, j: int)
    requires
        ledger_valid(s),
        0 <= i < j < s.entries.len(),
    ensures
        s.entries[i].permit.serial < s.entries[j].permit.serial,
        s.entries[i].permit.allocation != s.entries[j].permit.allocation,
        s.entries[i].permit.create_operation != s.entries[j].permit.create_operation,
        s.entries[i].permit.sandbox != s.entries[j].permit.sandbox || s.entries[i].permit.generation
            != s.entries[j].permit.generation,
{
}

/// Permits are of distinct owners exactly where they share none of these.
pub proof fn owners_are_told_apart(a: Permit, b: Permit)
    ensures
        distinct_owners(a, b) <==> a.allocation != b.allocation && a.create_operation != b.create_operation && (
        a.sandbox != b.sandbox || a.generation != b.generation),
{
}

} // verus!
