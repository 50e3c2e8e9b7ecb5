//! The laws of the coordination core, stated and proved once over the
//! store's model.
//!
//! Every operation requires and re-establishes the store's
//! well-formedness, so each fact below holds in every state an operation
//! can produce; the lemmas about a second call build on the transition
//! predicate that `create_assignment` ensures.

use vstd::prelude::*;

use crate::auth::authorized;
use crate::coordinator::{
    assign_error, assign_transition, delivery_error, driver_busy, has_assignment_for,
    has_delivery_for, lemma_mark_assigned_ids, mark_assigned,
};
use crate::entities::{Assignment, Entity};
use crate::errors::{ConflictReason, OpError};
use crate::registry::{emails_unique, has_id, ids_disjoint, ids_increasing, profiles_valid};
use crate::store::Store;

verus! {

/// **Uniqueness.**  In every well-formed store — and every operation both
/// requires and re-establishes well-formedness — no two profiles in one
/// registry share an email, no two assignments reference the same posting,
/// and no two assignments of the same driver are active at once.
pub proof fn lemma_uniqueness(s: Store)
    requires
        s.wf(),
    ensures
        emails_unique(s.donors@),
        emails_unique(s.receivers@),
        emails_unique(s.drivers@),
        s.assignments_unique(),
        s.drivers_single_active(),
{
}

/// **Referential integrity.**  Every assignment's receiver, posting and
/// driver — and every delivery record's posting and driver — resolve to
/// registered entities.  Nothing is ever removed from a registry, so an id
/// that resolved when the referring entity was created resolves forever.
pub proof fn lemma_referential_integrity(s: Store)
    requires
        s.wf(),
    ensures
        forall|i: int|
            0 <= i < s.assignments@.len() ==> {
                let a = #[trigger] s.assignments@[i];
                &&& has_id(s.receivers@, a.receiver_id)
                &&& has_id(s.postings@, a.surplus_posting_id)
                &&& has_id(s.drivers@, a.driver_id)
            },
        forall|i: int|
            0 <= i < s.deliveries@.len() ==> {
                let d = #[trigger] s.deliveries@[i];
                &&& has_id(s.postings@, d.surplus_posting_id)
                &&& has_id(s.drivers@, d.driver_id)
            },
        forall|i: int|
            0 <= i < s.postings@.len() ==> has_id(
                s.donors@,
                (#[trigger] s.postings@[i]).donor_id,
            ),
{
}

/// **Id monotonicity, within and across kinds.**  Ids come from the one
/// shared counter, so within every registry they strictly increase in
/// creation order, and no id ever occurs in two registries.  Together with
/// each create's guarantee that the new entity gets `id_counter + 1`, ids
/// across all kinds strictly increase in creation order and never repeat.
pub proof fn lemma_id_monotonicity(s: Store)
    requires
        s.wf(),
    ensures
        ids_increasing(s.donors@),
        ids_increasing(s.receivers@),
        ids_increasing(s.drivers@),
        ids_increasing(s.postings@),
        ids_increasing(s.assignments@),
        ids_increasing(s.deliveries@),
        ids_disjoint(s.donors@, s.receivers@),
        ids_disjoint(s.donors@, s.drivers@),
        ids_disjoint(s.donors@, s.postings@),
        ids_disjoint(s.donors@, s.assignments@),
        ids_disjoint(s.donors@, s.deliveries@),
        ids_disjoint(s.receivers@, s.drivers@),
        ids_disjoint(s.receivers@, s.postings@),
        ids_disjoint(s.receivers@, s.assignments@),
        ids_disjoint(s.receivers@, s.deliveries@),
        ids_disjoint(s.drivers@, s.postings@),
        ids_disjoint(s.drivers@, s.assignments@),
        ids_disjoint(s.drivers@, s.deliveries@),
        ids_disjoint(s.postings@, s.assignments@),
        ids_disjoint(s.postings@, s.deliveries@),
        ids_disjoint(s.assignments@, s.deliveries@),
{
}

/// **Fresh ids are unused.**  Any id above the counter — in particular the
/// one the generator will issue next — occurs in no registry, so an issued
/// id is never handed out again.
pub proof fn lemma_fresh_id_unused(s: Store, id: u64)
    requires
        s.wf(),
        id > s.id_counter,
    ensures
        !has_id(s.donors@, id),
        !has_id(s.receivers@, id),
        !has_id(s.drivers@, id),
        !has_id(s.postings@, id),
        !has_id(s.assignments@, id),
        !has_id(s.deliveries@, id),
{
}

/// **Stored entities are valid.**  Every entity passed the validation gate
/// when it was created and is immutable but for a posting's `assigned`
/// flag, so profile names and addresses are non-empty, emails contain `@`,
/// phones are ten decimal digits, and a posting's donor, quantity and
/// best-before date are non-zero with non-empty handling instructions.
pub proof fn lemma_stored_entities_valid(s: Store)
    requires
        s.wf(),
    ensures
        profiles_valid(s.donors@),
        profiles_valid(s.receivers@),
        profiles_valid(s.drivers@),
        forall|i: int|
            0 <= i < s.postings@.len() ==> {
                let p = #[trigger] s.postings@[i];
                &&& p.donor_id != 0
                &&& p.quantity_kg > 0
                &&& p.best_before_date > 0
            },
{
}

/// **State-machine ordering.**  `record_delivery` passes its checks only
/// when an assignment for the posting was created earlier and no delivery
/// for it was recorded yet: a posting is delivered at most once, and only
/// out of the `Assigned` state.
pub proof fn lemma_delivery_needs_assignment(
    s: Store,
    caller: u64,
    governance_approved: bool,
    posting_id: u64,
    driver_id: u64,
)
    requires
        s.wf(),
        delivery_error(s, caller, governance_approved, posting_id, driver_id) is None,
    ensures
        has_assignment_for(s.assignments@, posting_id),
        !has_delivery_for(s.deliveries@, posting_id),
{
    let k = choose|k: int|
        0 <= k < s.postings@.len() && (#[trigger] s.postings@[k]).id == posting_id
            && s.postings@[k].assigned;
    assert(s.postings@[k].assigned <==> has_assignment_for(s.assignments@, s.postings@[k].id));
}

/// **A posting is assigned at most once.**  After any successful
/// `create_assignment` — the state change it ensures is
/// `assign_transition` — every further attempt to assign the same posting,
/// by any caller with any receiver and driver that would otherwise
/// qualify, fails with the already-assigned conflict.
pub proof fn lemma_race_single_winner(
    s0: Store,
    s1: Store,
    a: Assignment,
    now: u64,
    caller: u64,
    governance_approved: bool,
    receiver_id: u64,
    posting_id: u64,
    driver_id: u64,
)
    requires
        s0.wf(),
        assign_transition(s0, s1, a, now),
        a.surplus_posting_id == posting_id,
        authorized(caller, driver_id, governance_approved),
        receiver_id != 0,
        posting_id != 0,
        driver_id != 0,
        has_id(s0.receivers@, receiver_id),
        has_id(s0.drivers@, driver_id),
    ensures
        assign_error(s1, caller, governance_approved, receiver_id, posting_id, driver_id)
            == Some(OpError::Conflict { reason: ConflictReason::AlreadyAssigned }),
{
    let i = choose|i: int|
        0 <= i < s0.postings@.len() && (#[trigger] s0.postings@[i]).id == posting_id
            && s1.postings@ == s0.postings@.update(i, mark_assigned(s0.postings@[i]));
    lemma_mark_assigned_ids(s0.postings@, i);
    assert(s0.postings@[i].eid() == posting_id);
    assert(has_id(s0.postings@, posting_id));
    assert(has_id(s1.postings@, posting_id));
    assert(s1.assignments@[s0.assignments@.len() as int] == a);
    assert(has_assignment_for(s1.assignments@, posting_id));
}

/// **Idempotent rejection.**  Calling `create_assignment` a second time
/// with the very arguments that just succeeded fails with the
/// already-assigned conflict — and since every failing call leaves the
/// store untouched, the first call's assignment is unaffected.
pub proof fn lemma_idempotent_rejection(
    s0: Store,
    s1: Store,
    a: Assignment,
    now: u64,
    caller: u64,
    governance_approved: bool,
    receiver_id: u64,
    posting_id: u64,
    driver_id: u64,
)
    requires
        s0.wf(),
        assign_error(s0, caller, governance_approved, receiver_id, posting_id, driver_id)
            is None,
        a.surplus_posting_id == posting_id,
        assign_transition(s0, s1, a, now),
    ensures
        assign_error(s1, caller, governance_approved, receiver_id, posting_id, driver_id)
            == Some(OpError::Conflict { reason: ConflictReason::AlreadyAssigned }),
        has_assignment_for(s1.assignments@, posting_id),
{
    lemma_race_single_winner(
        s0,
        s1,
        a,
        now,
        caller,
        governance_approved,
        receiver_id,
        posting_id,
        driver_id,
    );
    assert(s1.assignments@[s0.assignments@.len() as int] == a);
}

/// **Delivered is terminal.**  A posting with a delivery record still
/// carries its `assigned` flag: its record and assignment persist, so it
/// can neither be re-assigned nor re-delivered, and no operation clears
/// the flag.
pub proof fn lemma_delivered_posting_stays_assigned(s: Store, i: int)
    requires
        s.wf(),
        0 <= i < s.postings@.len(),
        has_delivery_for(s.deliveries@, s.postings@[i].id),
    ensures
        s.postings@[i].assigned,
        has_assignment_for(s.assignments@, s.postings@[i].id),
{
    let pid = s.postings@[i].id;
    let k = choose|k: int|
        0 <= k < s.deliveries@.len() && #[trigger] s.deliveries@[k].surplus_posting_id == pid;
    assert(has_assignment_for(s.assignments@, s.deliveries@[k].surplus_posting_id));
}

/// **Delivery frees the driver.**  Once a delivery record exists for an
/// assignment's posting, that assignment is no longer active, so its
/// driver may take new work: the busy check fails for the driver exactly
/// while one of the driver's assignments awaits delivery.
pub proof fn lemma_delivery_frees_driver(s: Store, driver_id: u64)
    requires
        s.wf(),
        forall|i: int|
            0 <= i < s.assignments@.len() && (#[trigger] s.assignments@[i]).driver_id
                == driver_id ==> has_delivery_for(
                s.deliveries@,
                s.assignments@[i].surplus_posting_id,
            ),
    ensures
        !driver_busy(s.assignments@, s.deliveries@, driver_id),
{
}

} // verus!
