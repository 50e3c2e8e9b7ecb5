//! The assignment state machine.
//!
//! Each posting moves `Open -> Assigned -> Delivered`.  A posting is `Open`
//! while no assignment references it (`assigned` is false), `Assigned` once
//! exactly one assignment does (`assigned` is true), and `Delivered` once a
//! delivery record confirms that assignment.  `Delivered` is terminal: the
//! record stays, the flag stays set, and no operation re-opens the posting.
//! A driver holds at most one active assignment at a time, where an
//! assignment is active until a delivery record exists for its posting.

use vstd::prelude::*;

use crate::auth::authorized;
use crate::entities::{Assignment, AssignmentStatus, DeliveryRecord, Entity, SurplusPosting};
use crate::errors::{ConflictReason, EntityKind, FieldId, OpError, ValidationReason};
use crate::registry::{
    contains_id, has_id, ids_bounded, lemma_bounded_weaken, lemma_push_bounded,
    lemma_push_disjoint_right, lemma_push_increasing,
};
use crate::store::Store;

verus! {

/// Some assignment references this posting.
pub open spec fn has_assignment_for(s: Seq<Assignment>, posting_id: u64) -> bool {
    exists|i: int| 0 <= i < s.len() && #[trigger] s[i].surplus_posting_id == posting_id
}

/// Some delivery record references this posting.
pub open spec fn has_delivery_for(s: Seq<DeliveryRecord>, posting_id: u64) -> bool {
    exists|i: int| 0 <= i < s.len() && #[trigger] s[i].surplus_posting_id == posting_id
}

/// An assignment is active until a delivery record exists for its posting.
pub open spec fn assignment_active(deliveries: Seq<DeliveryRecord>, a: Assignment) -> bool {
    !has_delivery_for(deliveries, a.surplus_posting_id)
}

/// The driver already holds an active assignment.
pub open spec fn driver_busy(
    assignments: Seq<Assignment>,
    deliveries: Seq<DeliveryRecord>,
    driver_id: u64,
) -> bool {
    exists|i: int|
        0 <= i < assignments.len() && #[trigger] assignments[i].driver_id == driver_id
            && assignment_active(deliveries, assignments[i])
}

/// The posting exists and is in the `Assigned` (or `Delivered`) state.
pub open spec fn posting_assigned(postings: Seq<SurplusPosting>, posting_id: u64) -> bool {
    exists|i: int|
        0 <= i < postings.len() && #[trigger] postings[i].id == posting_id && postings[i].assigned
}

/// Decides `has_assignment_for`.
pub fn assignment_exists_for(v: &Vec<Assignment>, posting_id: u64) -> (r: bool)
    ensures
        r == has_assignment_for(v@, posting_id),
{
    for i in 0..v.len()
        invariant
            forall|j: int| 0 <= j < i ==> #[trigger] v@[j].surplus_posting_id != posting_id,
    {
        if v[i].surplus_posting_id == posting_id {
            return true;
        }
    }
    false
}

/// Decides `has_delivery_for`.
pub fn delivery_exists_for(v: &Vec<DeliveryRecord>, posting_id: u64) -> (r: bool)
    ensures
        r == has_delivery_for(v@, posting_id),
{
    for i in 0..v.len()
        invariant
            forall|j: int| 0 <= j < i ==> #[trigger] v@[j].surplus_posting_id != posting_id,
    {
        if v[i].surplus_posting_id == posting_id {
            return true;
        }
    }
    false
}

/// Decides `driver_busy`.
pub fn driver_is_busy(
    assignments: &Vec<Assignment>,
    deliveries: &Vec<DeliveryRecord>,
    driver_id: u64,
) -> (r: bool)
    ensures
        r == driver_busy(assignments@, deliveries@, driver_id),
{
    for i in 0..assignments.len()
        invariant
            forall|j: int|
                0 <= j < i ==> !(#[trigger] assignments@[j].driver_id == driver_id
                    && assignment_active(deliveries@, assignments@[j])),
    {
        if assignments[i].driver_id == driver_id
            && !delivery_exists_for(deliveries, assignments[i].surplus_posting_id) {
            return true;
        }
    }
    false
}

/// Decides `posting_assigned`.
pub fn posting_is_assigned(v: &Vec<SurplusPosting>, posting_id: u64) -> (r: bool)
    ensures
        r == posting_assigned(v@, posting_id),
{
    for i in 0..v.len()
        invariant
            forall|j: int|
                0 <= j < i ==> !(#[trigger] v@[j].id == posting_id && v@[j].assigned),
    {
        if v[i].id == posting_id && v[i].assigned {
            return true;
        }
    }
    false
}

/// A posting whose id lies above the id counter is referenced by no
/// assignment: every assignment points at a posting already registered, and
/// registered ids never exceed the counter.
pub proof fn lemma_fresh_posting_unreferenced(s: Store, id: u64)
    requires
        s.wf(),
        id > s.id_counter,
    ensures
        !has_assignment_for(s.assignments@, id),
        !has_delivery_for(s.deliveries@, id),
{
    assert forall|i: int| 0 <= i < s.assignments@.len() implies
        #[trigger] s.assignments@[i].surplus_posting_id != id by {
        let pid = s.assignments@[i].surplus_posting_id;
        assert(has_id(s.postings@, pid));
        let j = choose|j: int| 0 <= j < s.postings@.len() && #[trigger] s.postings@[j].eid() == pid;
        assert(s.postings@[j].eid() <= s.id_counter);
    }
    assert forall|i: int| 0 <= i < s.deliveries@.len() implies
        #[trigger] s.deliveries@[i].surplus_posting_id != id by {
        let pid = s.deliveries@[i].surplus_posting_id;
        assert(has_id(s.postings@, pid));
        let j = choose|j: int| 0 <= j < s.postings@.len() && #[trigger] s.postings@[j].eid() == pid;
        assert(s.postings@[j].eid() <= s.id_counter);
    }
}

/// The posting with its `assigned` flag set.
pub open spec fn mark_assigned(p: SurplusPosting) -> SurplusPosting {
    SurplusPosting { assigned: true, ..p }
}

/// The first failing check of `create_assignment`, in the order the checks
/// run, or `None` when the call succeeds.
pub open spec fn assign_error(
    s: Store,
    caller: u64,
    governance_approved: bool,
    receiver_id: u64,
    posting_id: u64,
    driver_id: u64,
) -> Option<OpError> {
    if !authorized(caller, driver_id, governance_approved) {
        Some(OpError::Unauthorized)
    } else if receiver_id == 0 {
        Some(
            OpError::ValidationFailed {
                field: FieldId::ReceiverId,
                reason: ValidationReason::Empty,
            },
        )
    } else if posting_id == 0 {
        Some(
            OpError::ValidationFailed {
                field: FieldId::SurplusPostingId,
                reason: ValidationReason::Empty,
            },
        )
    } else if driver_id == 0 {
        Some(
            OpError::ValidationFailed {
                field: FieldId::DriverId,
                reason: ValidationReason::Empty,
            },
        )
    } else if !has_id(s.receivers@, receiver_id) {
        Some(OpError::NotFound { kind: EntityKind::Receiver, id: receiver_id })
    } else if !has_id(s.postings@, posting_id) {
        Some(OpError::NotFound { kind: EntityKind::Posting, id: posting_id })
    } else if !has_id(s.drivers@, driver_id) {
        Some(OpError::NotFound { kind: EntityKind::Driver, id: driver_id })
    } else if has_assignment_for(s.assignments@, posting_id) {
        Some(OpError::Conflict { reason: ConflictReason::AlreadyAssigned })
    } else if driver_busy(s.assignments@, s.deliveries@, driver_id) {
        Some(OpError::Conflict { reason: ConflictReason::DriverBusy })
    } else {
        None
    }
}

/// The first failing check of `record_delivery`, or `None` on success.  A
/// posting that exists but was never assigned fails the referential check,
/// like a posting that does not exist at all.
pub open spec fn delivery_error(
    s: Store,
    caller: u64,
    governance_approved: bool,
    posting_id: u64,
    driver_id: u64,
) -> Option<OpError> {
    if !authorized(caller, driver_id, governance_approved) {
        Some(OpError::Unauthorized)
    } else if posting_id == 0 {
        Some(
            OpError::ValidationFailed {
                field: FieldId::SurplusPostingId,
                reason: ValidationReason::Empty,
            },
        )
    } else if driver_id == 0 {
        Some(
            OpError::ValidationFailed {
                field: FieldId::DriverId,
                reason: ValidationReason::Empty,
            },
        )
    } else if !posting_assigned(s.postings@, posting_id) {
        Some(OpError::NotFound { kind: EntityKind::Posting, id: posting_id })
    } else if !has_id(s.drivers@, driver_id) {
        Some(OpError::NotFound { kind: EntityKind::Driver, id: driver_id })
    } else if has_delivery_for(s.deliveries@, posting_id) {
        Some(OpError::Conflict { reason: ConflictReason::AlreadyRecorded })
    } else {
        None
    }
}

/// How a successful `create_assignment` changes the store: the assignment
/// `a` is appended, its id is the one freshly issued, and the posting it
/// references — present before the call — has its `assigned` flag set.
/// Nothing else changes.
pub open spec fn assign_transition(s0: Store, s1: Store, a: Assignment, now: u64) -> bool {
    &&& a.id == s0.id_counter + 1
    &&& a.status == AssignmentStatus::Pending
    &&& a.created_at == now
    &&& s1.assignments@ == s0.assignments@.push(a)
    &&& s1.id_counter == s0.id_counter + 1
    &&& s1.donors == s0.donors
    &&& s1.receivers == s0.receivers
    &&& s1.drivers == s0.drivers
    &&& s1.deliveries == s0.deliveries
    &&& exists|i: int|
        0 <= i < s0.postings@.len() && (#[trigger] s0.postings@[i]).id == a.surplus_posting_id
            && s1.postings@ == s0.postings@.update(i, mark_assigned(s0.postings@[i]))
}

/// Setting one posting's flag changes no id: element for element the
/// updated registry holds the same ids, so every id lookup is unaffected.
pub proof fn lemma_mark_assigned_ids(s: Seq<SurplusPosting>, i: int)
    requires
        0 <= i < s.len(),
    ensures
        forall|j: int|
            0 <= j < s.len() ==> #[trigger] s.update(i, mark_assigned(s[i]))[j].eid()
                == s[j].eid(),
        forall|id: u64|
            #[trigger] has_id(s.update(i, mark_assigned(s[i])), id) == has_id(s, id),
{
    let su = s.update(i, mark_assigned(s[i]));
    assert forall|id: u64| #[trigger] has_id(su, id) == has_id(s, id) by {
        if has_id(su, id) {
            let k = choose|k: int| 0 <= k < su.len() && #[trigger] su[k].eid() == id;
            assert(s[k].eid() == id);
        }
        if has_id(s, id) {
            let k = choose|k: int| 0 <= k < s.len() && #[trigger] s[k].eid() == id;
            assert(su[k].eid() == id);
        }
    }
}

/// An existing assignment survives an append.
pub proof fn lemma_push_keeps_assignment_for(s: Seq<Assignment>, a: Assignment, posting_id: u64)
    requires
        has_assignment_for(s, posting_id),
    ensures
        has_assignment_for(s.push(a), posting_id),
{
    let i = choose|i: int| 0 <= i < s.len() && #[trigger] s[i].surplus_posting_id == posting_id;
    assert(s.push(a)[i].surplus_posting_id == posting_id);
}

/// Appending an assignment for one posting does not change whether any
/// other posting has an assignment.
pub proof fn lemma_push_assignment_other(s: Seq<Assignment>, a: Assignment, posting_id: u64)
    requires
        posting_id != a.surplus_posting_id,
    ensures
        has_assignment_for(s.push(a), posting_id) == has_assignment_for(s, posting_id),
{
    if has_assignment_for(s.push(a), posting_id) {
        let i = choose|i: int|
            0 <= i < s.push(a).len() && #[trigger] s.push(a)[i].surplus_posting_id == posting_id;
        assert(i < s.len());
        assert(s[i].surplus_posting_id == posting_id);
    }
    if has_assignment_for(s, posting_id) {
        lemma_push_keeps_assignment_for(s, a, posting_id);
    }
}

/// An existing delivery record survives an append.
pub proof fn lemma_push_keeps_delivery_for(s: Seq<DeliveryRecord>, r: DeliveryRecord, posting_id: u64)
    requires
        has_delivery_for(s, posting_id),
    ensures
        has_delivery_for(s.push(r), posting_id),
{
    let i = choose|i: int| 0 <= i < s.len() && #[trigger] s[i].surplus_posting_id == posting_id;
    assert(s.push(r)[i].surplus_posting_id == posting_id);
}

/// Finds the position of the posting with this id, if any.
pub fn posting_index(v: &Vec<SurplusPosting>, posting_id: u64) -> (r: Option<usize>)
    ensures
        match r {
            Some(i) => i < v@.len() && v@[i as int].id == posting_id,
            None => !has_id(v@, posting_id),
        },
{
    for i in 0..v.len()
        invariant
            forall|j: int| 0 <= j < i ==> #[trigger] v@[j].eid() != posting_id,
    {
        if v[i].id == posting_id {
            return Some(i);
        }
    }
    None
}

impl Store {
    /// Assigns a driver to deliver a posting to a receiver: the
    /// `Open -> Assigned` transition.  The caller must be that driver or be
    /// governance-approved; receiver, posting and driver must exist; the
    /// posting must not already be assigned; and the driver must not hold
    /// another active assignment.  On success the new assignment starts
    /// `Pending`, the posting's flag is set, and nothing else changes; on
    /// failure the store is unchanged and the error is the first failing
    /// check.
    pub fn create_assignment(
        &mut self,
        caller: u64,
        governance_approved: bool,
        receiver_id: u64,
        posting_id: u64,
        driver_id: u64,
        now: u64,
    ) -> (result: Result<Assignment, OpError>)
        requires
            old(self).wf(),
            old(self).id_counter < u64::MAX,
        ensures
            final(self).wf(),
            match result {
                Ok(a) => {
                    &&& assign_error(
                        *old(self),
                        caller,
                        governance_approved,
                        receiver_id,
                        posting_id,
                        driver_id,
                    ) is None
                    &&& a.id == old(self).id_counter + 1
                    &&& a.receiver_id == receiver_id
                    &&& a.surplus_posting_id == posting_id
                    &&& a.driver_id == driver_id
                    &&& a.status == AssignmentStatus::Pending
                    &&& a.created_at == now
                    &&& assign_transition(*old(self), *final(self), a, now)
                    &&& posting_assigned(final(self).postings@, posting_id)
                },
                Err(e) => {
                    &&& Some(e) == assign_error(
                        *old(self),
                        caller,
                        governance_approved,
                        receiver_id,
                        posting_id,
                        driver_id,
                    )
                    &&& *final(self) == *old(self)
                },
            },
    {
        if !crate::auth::is_authorized(caller, driver_id, governance_approved) {
            return Err(OpError::Unauthorized);
        }
        if receiver_id == 0 {
            return Err(
                OpError::ValidationFailed {
                    field: FieldId::ReceiverId,
                    reason: ValidationReason::Empty,
                },
            );
        }
        if posting_id == 0 {
            return Err(
                OpError::ValidationFailed {
                    field: FieldId::SurplusPostingId,
                    reason: ValidationReason::Empty,
                },
            );
        }
        if driver_id == 0 {
            return Err(
                OpError::ValidationFailed {
                    field: FieldId::DriverId,
                    reason: ValidationReason::Empty,
                },
            );
        }
        if !contains_id(&self.receivers, receiver_id) {
            return Err(OpError::NotFound { kind: EntityKind::Receiver, id: receiver_id });
        }
        let idx = match posting_index(&self.postings, posting_id) {
            Some(i) => i,
            None => {
                return Err(OpError::NotFound { kind: EntityKind::Posting, id: posting_id });
            },
        };
        proof {
            assert(self.postings@[idx as int].eid() == posting_id);
        }
        if !contains_id(&self.drivers, driver_id) {
            return Err(OpError::NotFound { kind: EntityKind::Driver, id: driver_id });
        }
        if assignment_exists_for(&self.assignments, posting_id) {
            return Err(OpError::Conflict { reason: ConflictReason::AlreadyAssigned });
        }
        if driver_is_busy(&self.assignments, &self.deliveries, driver_id) {
            return Err(OpError::Conflict { reason: ConflictReason::DriverBusy });
        }
        let ghost s0 = *self;
        let ghost pi = idx as int;
        let id = self.next_id();
        self.postings[idx].assigned = true;
        let a = Assignment {
            id,
            receiver_id,
            surplus_posting_id: posting_id,
            driver_id,
            status: AssignmentStatus::Pending,
            created_at: now,
        };
        self.assignments.push(a);
        proof {
            let su = s0.postings@.update(pi, mark_assigned(s0.postings@[pi]));
            assert(self.postings@ == su);
            lemma_mark_assigned_ids(s0.postings@, pi);
            // The ids facts: the new assignment's id is fresh, the updated
            // posting registry holds the same ids as before.
            lemma_push_bounded(s0.assignments@, a, s0.id_counter, self.id_counter);
            lemma_bounded_weaken(s0.donors@, s0.id_counter, self.id_counter);
            lemma_bounded_weaken(s0.receivers@, s0.id_counter, self.id_counter);
            lemma_bounded_weaken(s0.drivers@, s0.id_counter, self.id_counter);
            lemma_bounded_weaken(s0.deliveries@, s0.id_counter, self.id_counter);
            assert(ids_bounded(su, s0.id_counter));
            lemma_bounded_weaken(su, s0.id_counter, self.id_counter);
            lemma_push_increasing(s0.assignments@, a, s0.id_counter);
            assert(crate::registry::ids_increasing(su));
            assert(crate::registry::ids_disjoint(s0.donors@, su));
            assert(crate::registry::ids_disjoint(s0.receivers@, su));
            assert(crate::registry::ids_disjoint(s0.drivers@, su));
            assert(crate::registry::ids_disjoint(su, s0.assignments@));
            lemma_push_disjoint_right(su, s0.assignments@, a, s0.id_counter);
            assert(crate::registry::ids_disjoint(su, s0.deliveries@));
            lemma_push_disjoint_right(s0.donors@, s0.assignments@, a, s0.id_counter);
            lemma_push_disjoint_right(s0.receivers@, s0.assignments@, a, s0.id_counter);
            lemma_push_disjoint_right(s0.drivers@, s0.assignments@, a, s0.id_counter);
            crate::registry::lemma_push_disjoint_left(
                s0.assignments@,
                a,
                s0.deliveries@,
                s0.id_counter,
            );
            // Referential integrity: id lookups in the posting registry are
            // unaffected by the flag update.
            assert forall|i: int| 0 <= i < self.assignments@.len() implies {
                let x = #[trigger] self.assignments@[i];
                &&& has_id(self.receivers@, x.receiver_id)
                &&& has_id(self.postings@, x.surplus_posting_id)
                &&& has_id(self.drivers@, x.driver_id)
            } by {
                if i < s0.assignments@.len() {
                    assert(self.assignments@[i] == s0.assignments@[i]);
                } else {
                    assert(self.assignments@[i] == a);
                    assert(has_id(s0.postings@, posting_id));
                }
            }
            assert forall|i: int| 0 <= i < self.deliveries@.len() implies {
                let d = #[trigger] self.deliveries@[i];
                &&& has_id(self.postings@, d.surplus_posting_id)
                &&& has_id(self.drivers@, d.driver_id)
            } by {
                assert(has_id(s0.postings@, s0.deliveries@[i].surplus_posting_id));
            }
            // One driver, one active assignment: a pair of the new
            // assignment with an old active one for the same driver would
            // have made the driver busy before the call.
            assert forall|i: int, j: int|
                0 <= i < j < self.assignments@.len()
                    && (#[trigger] self.assignments@[i]).driver_id
                        == (#[trigger] self.assignments@[j]).driver_id implies !(
            assignment_active(self.deliveries@, self.assignments@[i]) && assignment_active(
                self.deliveries@,
                self.assignments@[j],
            )) by {
                if j == s0.assignments@.len() {
                    if assignment_active(s0.deliveries@, s0.assignments@[i]) {
                        assert(driver_busy(s0.assignments@, s0.deliveries@, driver_id));
                    }
                }
            }
            // The flags: the assigned posting now has its assignment; every
            // other posting keeps both its flag and its assignment status.
            assert(self.assignments@[s0.assignments@.len() as int] == a);
            assert forall|j: int| 0 <= j < self.postings@.len() implies ((
            #[trigger] self.postings@[j]).assigned <==> has_assignment_for(
                self.assignments@,
                self.postings@[j].id,
            )) by {
                if j == pi {
                    assert(self.postings@[j].assigned);
                    assert(self.postings@[j].id == posting_id);
                } else {
                    assert(self.postings@[j] == s0.postings@[j]);
                    if j < pi {
                        assert(s0.postings@[j].eid() < s0.postings@[pi].eid());
                    } else {
                        assert(s0.postings@[pi].eid() < s0.postings@[j].eid());
                    }
                    lemma_push_assignment_other(s0.assignments@, a, s0.postings@[j].id);
                }
            }
            assert forall|i: int| 0 <= i < self.deliveries@.len() implies has_assignment_for(
                self.assignments@,
                (#[trigger] self.deliveries@[i]).surplus_posting_id,
            ) by {
                lemma_push_keeps_assignment_for(
                    s0.assignments@,
                    a,
                    s0.deliveries@[i].surplus_posting_id,
                );
            }
            assert(self.postings@[pi].id == posting_id && self.postings@[pi].assigned);
        }
        Ok(a)
    }

    /// Confirms a delivery: the `Assigned -> Delivered` transition.  The
    /// caller must be the driver or be governance-approved; the posting
    /// must exist in the `Assigned` state; the driver must exist; and no
    /// delivery may already be recorded for the posting.  On success the
    /// record is appended and nothing else changes — `Delivered` is
    /// terminal, so the posting keeps its flag and is never re-opened,
    /// while the driver's assignment stops being active, freeing the
    /// driver for new work.
    pub fn record_delivery(
        &mut self,
        caller: u64,
        governance_approved: bool,
        posting_id: u64,
        driver_id: u64,
        rating: Option<u8>,
        now: u64,
    ) -> (result: Result<DeliveryRecord, OpError>)
        requires
            old(self).wf(),
            old(self).id_counter < u64::MAX,
        ensures
            final(self).wf(),
            match result {
                Ok(rec) => {
                    &&& delivery_error(
                        *old(self),
                        caller,
                        governance_approved,
                        posting_id,
                        driver_id,
                    ) is None
                    &&& rec.id == old(self).id_counter + 1
                    &&& rec.surplus_posting_id == posting_id
                    &&& rec.driver_id == driver_id
                    &&& rec.delivered_at == now
                    &&& rec.rating == rating
                    &&& final(self).deliveries@ == old(self).deliveries@.push(rec)
                    &&& final(self).id_counter == old(self).id_counter + 1
                    &&& final(self).donors == old(self).donors
                    &&& final(self).receivers == old(self).receivers
                    &&& final(self).drivers == old(self).drivers
                    &&& final(self).postings == old(self).postings
                    &&& final(self).assignments == old(self).assignments
                    &&& has_assignment_for(old(self).assignments@, posting_id)
                    &&& !has_delivery_for(old(self).deliveries@, posting_id)
                },
                Err(e) => {
                    &&& Some(e) == delivery_error(
                        *old(self),
                        caller,
                        governance_approved,
                        posting_id,
                        driver_id,
                    )
                    &&& *final(self) == *old(self)
                },
            },
    {
        if !crate::auth::is_authorized(caller, driver_id, governance_approved) {
            return Err(OpError::Unauthorized);
        }
        if posting_id == 0 {
            return Err(
                OpError::ValidationFailed {
                    field: FieldId::SurplusPostingId,
                    reason: ValidationReason::Empty,
                },
            );
        }
        if driver_id == 0 {
            return Err(
                OpError::ValidationFailed {
                    field: FieldId::DriverId,
                    reason: ValidationReason::Empty,
                },
            );
        }
        if !posting_is_assigned(&self.postings, posting_id) {
            return Err(OpError::NotFound { kind: EntityKind::Posting, id: posting_id });
        }
        if !contains_id(&self.drivers, driver_id) {
            return Err(OpError::NotFound { kind: EntityKind::Driver, id: driver_id });
        }
        if delivery_exists_for(&self.deliveries, posting_id) {
            return Err(OpError::Conflict { reason: ConflictReason::AlreadyRecorded });
        }
        let ghost s0 = *self;
        let id = self.next_id();
        let rec = DeliveryRecord {
            id,
            surplus_posting_id: posting_id,
            driver_id,
            delivered_at: now,
            rating,
        };
        self.deliveries.push(rec);
        proof {
            let k = choose|k: int|
                0 <= k < s0.postings@.len() && (#[trigger] s0.postings@[k]).id == posting_id
                    && s0.postings@[k].assigned;
            assert(s0.postings@[k].eid() == posting_id);
            assert(has_id(s0.postings@, posting_id));
            assert(has_assignment_for(s0.assignments@, posting_id));
            lemma_push_bounded(s0.deliveries@, rec, s0.id_counter, self.id_counter);
            lemma_bounded_weaken(s0.donors@, s0.id_counter, self.id_counter);
            lemma_bounded_weaken(s0.receivers@, s0.id_counter, self.id_counter);
            lemma_bounded_weaken(s0.drivers@, s0.id_counter, self.id_counter);
            lemma_bounded_weaken(s0.postings@, s0.id_counter, self.id_counter);
            lemma_bounded_weaken(s0.assignments@, s0.id_counter, self.id_counter);
            lemma_push_increasing(s0.deliveries@, rec, s0.id_counter);
            lemma_push_disjoint_right(s0.donors@, s0.deliveries@, rec, s0.id_counter);
            lemma_push_disjoint_right(s0.receivers@, s0.deliveries@, rec, s0.id_counter);
            lemma_push_disjoint_right(s0.drivers@, s0.deliveries@, rec, s0.id_counter);
            lemma_push_disjoint_right(s0.postings@, s0.deliveries@, rec, s0.id_counter);
            lemma_push_disjoint_right(s0.assignments@, s0.deliveries@, rec, s0.id_counter);
            // A driver's assignment that is active now was active before:
            // the new record can only retire assignments, never revive one.
            assert forall|i: int, j: int|
                0 <= i < j < self.assignments@.len()
                    && (#[trigger] self.assignments@[i]).driver_id
                        == (#[trigger] self.assignments@[j]).driver_id implies !(
            assignment_active(self.deliveries@, self.assignments@[i]) && assignment_active(
                self.deliveries@,
                self.assignments@[j],
            )) by {
                if has_delivery_for(s0.deliveries@, self.assignments@[i].surplus_posting_id) {
                    lemma_push_keeps_delivery_for(
                        s0.deliveries@,
                        rec,
                        self.assignments@[i].surplus_posting_id,
                    );
                }
                if has_delivery_for(s0.deliveries@, self.assignments@[j].surplus_posting_id) {
                    lemma_push_keeps_delivery_for(
                        s0.deliveries@,
                        rec,
                        self.assignments@[j].surplus_posting_id,
                    );
                }
            }
        }
        Ok(rec)
    }
}

} // verus!
