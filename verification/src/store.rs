//! The owned store: six entity registries and the shared id counter.
//!
//! Every mutating operation takes the store exclusively (`&mut self`), so a
//! complete check-then-act sequence can never interleave with another
//! writer: the checks and the write form one critical section.  Each
//! operation either fully applies (one entity appended, one id issued) or
//! fully fails with a typed error and the store unchanged.
//!
//! The well-formedness invariant `wf` ties the registries together: ids are
//! issued by the shared counter, so they stay within `1 ..= id_counter`,
//! strictly increase within each registry in insertion order, and never
//! repeat across registries; emails are unique within each profile
//! registry; every foreign id resolves; a posting's `assigned` flag is set
//! exactly while an assignment references it; at most one assignment and at
//! most one delivery record ever reference a posting; and a driver holds at
//! most one active assignment at a time.

use vstd::prelude::*;

use crate::coordinator::{assignment_active, has_assignment_for};
use crate::entities::{
    Assignment, BusinessType, DeliveryRecord, DonorProfile, DriverProfile, FoodType,
    ProfileEntity, ReceiverProfile, SurplusPosting,
};
use crate::errors::{ConflictReason, EntityKind, FieldId, OpError, ValidationReason};
use crate::registry::{
    contains_id, email_in_use, email_taken, emails_unique, has_id, ids_bounded, ids_disjoint,
    ids_increasing, lemma_bounded_weaken, lemma_push_bounded, lemma_push_disjoint_left,
    lemma_push_disjoint_right, lemma_push_emails_unique, lemma_push_increasing,
    lemma_push_keeps_has_id, profiles_valid,
};
use crate::validate::{
    check_email_format, check_nonempty, check_phone_format, nonempty, valid_email, valid_phone,
};

verus! {

/// The in-memory coordination state: one registry per entity kind, plus the
/// process-wide id counter shared by all of them.
pub struct Store {
    pub donors: Vec<DonorProfile>,
    pub receivers: Vec<ReceiverProfile>,
    pub drivers: Vec<DriverProfile>,
    pub postings: Vec<SurplusPosting>,
    pub assignments: Vec<Assignment>,
    pub deliveries: Vec<DeliveryRecord>,
    /// The last id issued; the next entity gets `id_counter + 1`.
    pub id_counter: u64,
}

/// The first failing check of a profile creation, in the order the checks
/// run, or `None` when the creation succeeds.  The same gate guards all
/// three profile registries; `reg` is the registry the email must be new in.
pub open spec fn profile_create_error<T: ProfileEntity>(
    reg: Seq<T>,
    governance_approved: bool,
    name: Seq<char>,
    phone: Seq<char>,
    email: Seq<char>,
    address: Seq<char>,
) -> Option<OpError> {
    if !governance_approved {
        Some(OpError::Unauthorized)
    } else if !nonempty(name) {
        Some(OpError::ValidationFailed { field: FieldId::Name, reason: ValidationReason::Empty })
    } else if !nonempty(phone) {
        Some(OpError::ValidationFailed { field: FieldId::Phone, reason: ValidationReason::Empty })
    } else if !nonempty(email) {
        Some(OpError::ValidationFailed { field: FieldId::Email, reason: ValidationReason::Empty })
    } else if !nonempty(address) {
        Some(
            OpError::ValidationFailed { field: FieldId::Address, reason: ValidationReason::Empty },
        )
    } else if email_taken(reg, email) {
        Some(OpError::Conflict { reason: ConflictReason::DuplicateEmail })
    } else if !valid_email(email) {
        Some(
            OpError::ValidationFailed {
                field: FieldId::Email,
                reason: ValidationReason::BadFormat,
            },
        )
    } else if !valid_phone(phone) {
        Some(
            OpError::ValidationFailed {
                field: FieldId::Phone,
                reason: ValidationReason::BadFormat,
            },
        )
    } else {
        None
    }
}

/// The first failing check of a posting creation, or `None` on success.
pub open spec fn posting_create_error(
    s: Store,
    caller: u64,
    governance_approved: bool,
    donor_id: u64,
    quantity_kg: u32,
    best_before_date: u64,
    handling_instructions: Seq<char>,
) -> Option<OpError> {
    if !crate::auth::authorized(caller, donor_id, governance_approved) {
        Some(OpError::Unauthorized)
    } else if donor_id == 0 {
        Some(OpError::ValidationFailed { field: FieldId::DonorId, reason: ValidationReason::Empty })
    } else if quantity_kg == 0 {
        Some(
            OpError::ValidationFailed {
                field: FieldId::QuantityKg,
                reason: ValidationReason::Empty,
            },
        )
    } else if best_before_date == 0 {
        Some(
            OpError::ValidationFailed {
                field: FieldId::BestBeforeDate,
                reason: ValidationReason::Empty,
            },
        )
    } else if !nonempty(handling_instructions) {
        Some(
            OpError::ValidationFailed {
                field: FieldId::HandlingInstructions,
                reason: ValidationReason::Empty,
            },
        )
    } else if !has_id(s.donors@, donor_id) {
        Some(OpError::NotFound { kind: EntityKind::Donor, id: donor_id })
    } else {
        None
    }
}

impl Store {
    /// Ids stay within the counter's range, strictly increase within each
    /// registry, and never repeat across registries.
    pub open spec fn ids_ok(self) -> bool {
        &&& ids_bounded(self.donors@, self.id_counter)
        &&& ids_bounded(self.receivers@, self.id_counter)
        &&& ids_bounded(self.drivers@, self.id_counter)
        &&& ids_bounded(self.postings@, self.id_counter)
        &&& ids_bounded(self.assignments@, self.id_counter)
        &&& ids_bounded(self.deliveries@, self.id_counter)
        &&& ids_increasing(self.donors@)
        &&& ids_increasing(self.receivers@)
        &&& ids_increasing(self.drivers@)
        &&& ids_increasing(self.postings@)
        &&& ids_increasing(self.assignments@)
        &&& ids_increasing(self.deliveries@)
        &&& ids_disjoint(self.donors@, self.receivers@)
        &&& ids_disjoint(self.donors@, self.drivers@)
        &&& ids_disjoint(self.donors@, self.postings@)
        &&& ids_disjoint(self.donors@, self.assignments@)
        &&& ids_disjoint(self.donors@, self.deliveries@)
        &&& ids_disjoint(self.receivers@, self.drivers@)
        &&& ids_disjoint(self.receivers@, self.postings@)
        &&& ids_disjoint(self.receivers@, self.assignments@)
        &&& ids_disjoint(self.receivers@, self.deliveries@)
        &&& ids_disjoint(self.drivers@, self.postings@)
        &&& ids_disjoint(self.drivers@, self.assignments@)
        &&& ids_disjoint(self.drivers@, self.deliveries@)
        &&& ids_disjoint(self.postings@, self.assignments@)
        &&& ids_disjoint(self.postings@, self.deliveries@)
        &&& ids_disjoint(self.assignments@, self.deliveries@)
    }

    /// Emails are unique within each profile registry (two registries may
    /// share an email; one may not repeat it).
    pub open spec fn emails_ok(self) -> bool {
        &&& emails_unique(self.donors@)
        &&& emails_unique(self.receivers@)
        &&& emails_unique(self.drivers@)
    }

    /// Every foreign id resolves to an entity of the right kind.
    pub open spec fn refs_ok(self) -> bool {
        &&& forall|i: int|
            0 <= i < self.postings@.len() ==> has_id(
                self.donors@,
                (#[trigger] self.postings@[i]).donor_id,
            )
        &&& forall|i: int|
            0 <= i < self.assignments@.len() ==> {
                let a = #[trigger] self.assignments@[i];
                &&& has_id(self.receivers@, a.receiver_id)
                &&& has_id(self.postings@, a.surplus_posting_id)
                &&& has_id(self.drivers@, a.driver_id)
            }
        &&& forall|i: int|
            0 <= i < self.deliveries@.len() ==> {
                let d = #[trigger] self.deliveries@[i];
                &&& has_id(self.postings@, d.surplus_posting_id)
                &&& has_id(self.drivers@, d.driver_id)
            }
    }

    /// At most one assignment ever references a posting.
    pub open spec fn assignments_unique(self) -> bool {
        forall|i: int, j: int|
            0 <= i < j < self.assignments@.len()
                ==> (#[trigger] self.assignments@[i]).surplus_posting_id
                    != (#[trigger] self.assignments@[j]).surplus_posting_id
    }

    /// At most one delivery record ever references a posting.
    pub open spec fn deliveries_unique(self) -> bool {
        forall|i: int, j: int|
            0 <= i < j < self.deliveries@.len()
                ==> (#[trigger] self.deliveries@[i]).surplus_posting_id
                    != (#[trigger] self.deliveries@[j]).surplus_posting_id
    }

    /// A driver holds at most one active assignment at a time.
    pub open spec fn drivers_single_active(self) -> bool {
        forall|i: int, j: int|
            0 <= i < j < self.assignments@.len()
                && (#[trigger] self.assignments@[i]).driver_id
                    == (#[trigger] self.assignments@[j]).driver_id
                ==> !(assignment_active(self.deliveries@, self.assignments@[i])
                    && assignment_active(self.deliveries@, self.assignments@[j]))
    }

    /// A posting's `assigned` flag is set exactly while an assignment
    /// references it.
    pub open spec fn flags_ok(self) -> bool {
        forall|i: int|
            0 <= i < self.postings@.len()
                ==> ((#[trigger] self.postings@[i]).assigned <==> has_assignment_for(
                    self.assignments@,
                    self.postings@[i].id,
                ))
    }

    /// Every stored entity passed the validation gate: profile fields are
    /// well-formed, and a posting's donor, quantity and best-before date
    /// are non-zero with non-empty handling instructions.
    pub open spec fn fields_ok(self) -> bool {
        &&& profiles_valid(self.donors@)
        &&& profiles_valid(self.receivers@)
        &&& profiles_valid(self.drivers@)
        &&& forall|i: int|
            0 <= i < self.postings@.len() ==> {
                let p = #[trigger] self.postings@[i];
                &&& p.donor_id != 0
                &&& p.quantity_kg > 0
                &&& p.best_before_date > 0
                &&& nonempty(p.handling_instructions@)
            }
    }

    /// A delivery record only ever confirms an assignment that exists.
    pub open spec fn deliveries_follow_assignments(self) -> bool {
        forall|i: int|
            0 <= i < self.deliveries@.len() ==> has_assignment_for(
                self.assignments@,
                (#[trigger] self.deliveries@[i]).surplus_posting_id,
            )
    }

    /// The store's well-formedness invariant: established by `new` and
    /// preserved by every operation.
    pub open spec fn wf(self) -> bool {
        &&& self.ids_ok()
        &&& self.emails_ok()
        &&& self.refs_ok()
        &&& self.assignments_unique()
        &&& self.deliveries_unique()
        &&& self.drivers_single_active()
        &&& self.flags_ok()
        &&& self.deliveries_follow_assignments()
        &&& self.fields_ok()
    }

    /// An empty store; the first id issued will be 1.
    pub fn new() -> (s: Store)
        ensures
            s.wf(),
            s.id_counter == 0,
            s.donors@ =~= Seq::<DonorProfile>::empty(),
            s.receivers@ =~= Seq::<ReceiverProfile>::empty(),
            s.drivers@ =~= Seq::<DriverProfile>::empty(),
            s.postings@ =~= Seq::<SurplusPosting>::empty(),
            s.assignments@ =~= Seq::<Assignment>::empty(),
            s.deliveries@ =~= Seq::<DeliveryRecord>::empty(),
    {
        Store {
            donors: Vec::new(),
            receivers: Vec::new(),
            drivers: Vec::new(),
            postings: Vec::new(),
            assignments: Vec::new(),
            deliveries: Vec::new(),
            id_counter: 0,
        }
    }

    /// The shared id generator: strictly increasing, starting at 1, one
    /// distinct value per call.  Only called once every check has passed,
    /// so a failed operation never consumes an id.
    pub(crate) fn next_id(&mut self) -> (id: u64)
        requires
            old(self).id_counter < u64::MAX,
        ensures
            id == old(self).id_counter + 1,
            final(self).id_counter == id,
            final(self).donors == old(self).donors,
            final(self).receivers == old(self).receivers,
            final(self).drivers == old(self).drivers,
            final(self).postings == old(self).postings,
            final(self).assignments == old(self).assignments,
            final(self).deliveries == old(self).deliveries,
    {
        let id = self.id_counter + 1;
        self.id_counter = id;
        id
    }

    /// The last id issued; ids are never reused, so anything at most this
    /// value may already be taken.
    pub fn last_issued_id(&self) -> (r: u64)
        ensures
            r == self.id_counter,
    {
        self.id_counter
    }

    /// All donor profiles, in insertion order.
    pub fn list_donors(&self) -> (r: &Vec<DonorProfile>)
        ensures
            r@ == self.donors@,
    {
        &self.donors
    }

    /// All receiver profiles, in insertion order.
    pub fn list_receivers(&self) -> (r: &Vec<ReceiverProfile>)
        ensures
            r@ == self.receivers@,
    {
        &self.receivers
    }

    /// All driver profiles, in insertion order.
    pub fn list_drivers(&self) -> (r: &Vec<DriverProfile>)
        ensures
            r@ == self.drivers@,
    {
        &self.drivers
    }

    /// All surplus postings, in insertion order.
    pub fn list_postings(&self) -> (r: &Vec<SurplusPosting>)
        ensures
            r@ == self.postings@,
    {
        &self.postings
    }

    /// All assignments, in insertion order.
    pub fn list_assignments(&self) -> (r: &Vec<Assignment>)
        ensures
            r@ == self.assignments@,
    {
        &self.assignments
    }

    /// All delivery records, in insertion order.
    pub fn list_delivery_records(&self) -> (r: &Vec<DeliveryRecord>)
        ensures
            r@ == self.deliveries@,
    {
        &self.deliveries
    }

    /// Registers a donor.  Only a governance-approved caller may create
    /// profiles.  On success the profile is appended to the donor registry
    /// with a fresh id and returned; on failure the store is unchanged and
    /// the error is the first failing check.
    pub fn create_donor_profile(
        &mut self,
        governance_approved: bool,
        name: String,
        phone: String,
        email: String,
        address: String,
        business_type: BusinessType,
        now: u64,
    ) -> (result: Result<DonorProfile, OpError>)
        requires
            old(self).wf(),
            old(self).id_counter < u64::MAX,
        ensures
            final(self).wf(),
            match result {
                Ok(d) => {
                    &&& profile_create_error(
                        old(self).donors@,
                        governance_approved,
                        name@,
                        phone@,
                        email@,
                        address@,
                    ) is None
                    &&& d.id == old(self).id_counter + 1
                    &&& d.name == name
                    &&& d.phone == phone
                    &&& d.email == email
                    &&& d.address == address
                    &&& d.business_type == business_type
                    &&& d.created_at == now
                    &&& final(self).donors@ == old(self).donors@.push(d)
                    &&& final(self).id_counter == old(self).id_counter + 1
                    &&& final(self).receivers == old(self).receivers
                    &&& final(self).drivers == old(self).drivers
                    &&& final(self).postings == old(self).postings
                    &&& final(self).assignments == old(self).assignments
                    &&& final(self).deliveries == old(self).deliveries
                },
                Err(e) => {
                    &&& Some(e) == profile_create_error(
                        old(self).donors@,
                        governance_approved,
                        name@,
                        phone@,
                        email@,
                        address@,
                    )
                    &&& *final(self) == *old(self)
                },
            },
    {
        if !governance_approved {
            return Err(OpError::Unauthorized);
        }
        if !check_nonempty(&name) {
            return Err(
                OpError::ValidationFailed { field: FieldId::Name, reason: ValidationReason::Empty },
            );
        }
        if !check_nonempty(&phone) {
            return Err(
                OpError::ValidationFailed {
                    field: FieldId::Phone,
                    reason: ValidationReason::Empty,
                },
            );
        }
        if !check_nonempty(&email) {
            return Err(
                OpError::ValidationFailed {
                    field: FieldId::Email,
                    reason: ValidationReason::Empty,
                },
            );
        }
        if !check_nonempty(&address) {
            return Err(
                OpError::ValidationFailed {
                    field: FieldId::Address,
                    reason: ValidationReason::Empty,
                },
            );
        }
        if email_in_use(&self.donors, &email) {
            return Err(OpError::Conflict { reason: ConflictReason::DuplicateEmail });
        }
        if !check_email_format(&email) {
            return Err(
                OpError::ValidationFailed {
                    field: FieldId::Email,
                    reason: ValidationReason::BadFormat,
                },
            );
        }
        if !check_phone_format(&phone) {
            return Err(
                OpError::ValidationFailed {
                    field: FieldId::Phone,
                    reason: ValidationReason::BadFormat,
                },
            );
        }
        let ghost s0 = *self;
        let id = self.next_id();
        let stored = DonorProfile {
            id,
            name,
            phone,
            email,
            address,
            business_type,
            created_at: now,
        };
        let result = DonorProfile {
            id,
            name: stored.name.clone(),
            phone: stored.phone.clone(),
            email: stored.email.clone(),
            address: stored.address.clone(),
            business_type,
            created_at: now,
        };
        proof {
            assert(stored == result);
        }
        self.donors.push(stored);
        proof {
            lemma_push_bounded(s0.donors@, result, s0.id_counter, self.id_counter);
            lemma_bounded_weaken(s0.receivers@, s0.id_counter, self.id_counter);
            lemma_bounded_weaken(s0.drivers@, s0.id_counter, self.id_counter);
            lemma_bounded_weaken(s0.postings@, s0.id_counter, self.id_counter);
            lemma_bounded_weaken(s0.assignments@, s0.id_counter, self.id_counter);
            lemma_bounded_weaken(s0.deliveries@, s0.id_counter, self.id_counter);
            lemma_push_increasing(s0.donors@, result, s0.id_counter);
            lemma_push_disjoint_left(s0.donors@, result, s0.receivers@, s0.id_counter);
            lemma_push_disjoint_left(s0.donors@, result, s0.drivers@, s0.id_counter);
            lemma_push_disjoint_left(s0.donors@, result, s0.postings@, s0.id_counter);
            lemma_push_disjoint_left(s0.donors@, result, s0.assignments@, s0.id_counter);
            lemma_push_disjoint_left(s0.donors@, result, s0.deliveries@, s0.id_counter);
            lemma_push_emails_unique(s0.donors@, result);
            assert forall|i: int| 0 <= i < self.postings@.len() implies has_id(
                self.donors@,
                (#[trigger] self.postings@[i]).donor_id,
            ) by {
                lemma_push_keeps_has_id(s0.donors@, result, s0.postings@[i].donor_id);
            }
        }
        Ok(result)
    }

    /// Registers a receiver, under the same gate as `create_donor_profile`.
    pub fn create_receiver_profile(
        &mut self,
        governance_approved: bool,
        name: String,
        phone: String,
        email: String,
        address: String,
        now: u64,
    ) -> (result: Result<ReceiverProfile, OpError>)
        requires
            old(self).wf(),
            old(self).id_counter < u64::MAX,
        ensures
            final(self).wf(),
            match result {
                Ok(r) => {
                    &&& profile_create_error(
                        old(self).receivers@,
                        governance_approved,
                        name@,
                        phone@,
                        email@,
                        address@,
                    ) is None
                    &&& r.id == old(self).id_counter + 1
                    &&& r.name == name
                    &&& r.phone == phone
                    &&& r.email == email
                    &&& r.address == address
                    &&& r.created_at == now
                    &&& final(self).receivers@ == old(self).receivers@.push(r)
                    &&& final(self).id_counter == old(self).id_counter + 1
                    &&& final(self).donors == old(self).donors
                    &&& final(self).drivers == old(self).drivers
                    &&& final(self).postings == old(self).postings
                    &&& final(self).assignments == old(self).assignments
                    &&& final(self).deliveries == old(self).deliveries
                },
                Err(e) => {
                    &&& Some(e) == profile_create_error(
                        old(self).receivers@,
                        governance_approved,
                        name@,
                        phone@,
                        email@,
                        address@,
                    )
                    &&& *final(self) == *old(self)
                },
            },
    {
        if !governance_approved {
            return Err(OpError::Unauthorized);
        }
        if !check_nonempty(&name) {
            return Err(
                OpError::ValidationFailed { field: FieldId::Name, reason: ValidationReason::Empty },
            );
        }
        if !check_nonempty(&phone) {
            return Err(
                OpError::ValidationFailed {
                    field: FieldId::Phone,
                    reason: ValidationReason::Empty,
                },
            );
        }
        if !check_nonempty(&email) {
            return Err(
                OpError::ValidationFailed {
                    field: FieldId::Email,
                    reason: ValidationReason::Empty,
                },
            );
        }
        if !check_nonempty(&address) {
            return Err(
                OpError::ValidationFailed {
                    field: FieldId::Address,
                    reason: ValidationReason::Empty,
                },
            );
        }
        if email_in_use(&self.receivers, &email) {
            return Err(OpError::Conflict { reason: ConflictReason::DuplicateEmail });
        }
        if !check_email_format(&email) {
            return Err(
                OpError::ValidationFailed {
                    field: FieldId::Email,
                    reason: ValidationReason::BadFormat,
                },
            );
        }
        if !check_phone_format(&phone) {
            return Err(
                OpError::ValidationFailed {
                    field: FieldId::Phone,
                    reason: ValidationReason::BadFormat,
                },
            );
        }
        let ghost s0 = *self;
        let id = self.next_id();
        let stored = ReceiverProfile { id, name, phone, email, address, created_at: now };
        let result = ReceiverProfile {
            id,
            name: stored.name.clone(),
            phone: stored.phone.clone(),
            email: stored.email.clone(),
            address: stored.address.clone(),
            created_at: now,
        };
        proof {
            assert(stored == result);
        }
        self.receivers.push(stored);
        proof {
            lemma_push_bounded(s0.receivers@, result, s0.id_counter, self.id_counter);
            lemma_bounded_weaken(s0.donors@, s0.id_counter, self.id_counter);
            lemma_bounded_weaken(s0.drivers@, s0.id_counter, self.id_counter);
            lemma_bounded_weaken(s0.postings@, s0.id_counter, self.id_counter);
            lemma_bounded_weaken(s0.assignments@, s0.id_counter, self.id_counter);
            lemma_bounded_weaken(s0.deliveries@, s0.id_counter, self.id_counter);
            lemma_push_increasing(s0.receivers@, result, s0.id_counter);
            lemma_push_disjoint_right(s0.donors@, s0.receivers@, result, s0.id_counter);
            lemma_push_disjoint_left(s0.receivers@, result, s0.drivers@, s0.id_counter);
            lemma_push_disjoint_left(s0.receivers@, result, s0.postings@, s0.id_counter);
            lemma_push_disjoint_left(s0.receivers@, result, s0.assignments@, s0.id_counter);
            lemma_push_disjoint_left(s0.receivers@, result, s0.deliveries@, s0.id_counter);
            lemma_push_emails_unique(s0.receivers@, result);
            assert forall|i: int| 0 <= i < self.assignments@.len() implies {
                let a = #[trigger] self.assignments@[i];
                &&& has_id(self.receivers@, a.receiver_id)
                &&& has_id(self.postings@, a.surplus_posting_id)
                &&& has_id(self.drivers@, a.driver_id)
            } by {
                lemma_push_keeps_has_id(s0.receivers@, result, s0.assignments@[i].receiver_id);
            }
        }
        Ok(result)
    }

    /// Registers a driver, under the same gate as `create_donor_profile`.
    pub fn create_driver_profile(
        &mut self,
        governance_approved: bool,
        name: String,
        phone: String,
        email: String,
        address: String,
        now: u64,
    ) -> (result: Result<DriverProfile, OpError>)
        requires
            old(self).wf(),
            old(self).id_counter < u64::MAX,
        ensures
            final(self).wf(),
            match result {
                Ok(d) => {
                    &&& profile_create_error(
                        old(self).drivers@,
                        governance_approved,
                        name@,
                        phone@,
                        email@,
                        address@,
                    ) is None
                    &&& d.id == old(self).id_counter + 1
                    &&& d.name == name
                    &&& d.phone == phone
                    &&& d.email == email
                    &&& d.address == address
                    &&& d.created_at == now
                    &&& final(self).drivers@ == old(self).drivers@.push(d)
                    &&& final(self).id_counter == old(self).id_counter + 1
                    &&& final(self).donors == old(self).donors
                    &&& final(self).receivers == old(self).receivers
                    &&& final(self).postings == old(self).postings
                    &&& final(self).assignments == old(self).assignments
                    &&& final(self).deliveries == old(self).deliveries
                },
                Err(e) => {
                    &&& Some(e) == profile_create_error(
                        old(self).drivers@,
                        governance_approved,
                        name@,
                        phone@,
                        email@,
                        address@,
                    )
                    &&& *final(self) == *old(self)
                },
            },
    {
        if !governance_approved {
            return Err(OpError::Unauthorized);
        }
        if !check_nonempty(&name) {
            return Err(
                OpError::ValidationFailed { field: FieldId::Name, reason: ValidationReason::Empty },
            );
        }
        if !check_nonempty(&phone) {
            return Err(
                OpError::ValidationFailed {
                    field: FieldId::Phone,
                    reason: ValidationReason::Empty,
                },
            );
        }
        if !check_nonempty(&email) {
            return Err(
                OpError::ValidationFailed {
                    field: FieldId::Email,
                    reason: ValidationReason::Empty,
                },
            );
        }
        if !check_nonempty(&address) {
            return Err(
                OpError::ValidationFailed {
                    field: FieldId::Address,
                    reason: ValidationReason::Empty,
                },
            );
        }
        if email_in_use(&self.drivers, &email) {
            return Err(OpError::Conflict { reason: ConflictReason::DuplicateEmail });
        }
        if !check_email_format(&email) {
            return Err(
                OpError::ValidationFailed {
                    field: FieldId::Email,
                    reason: ValidationReason::BadFormat,
                },
            );
        }
        if !check_phone_format(&phone) {
            return Err(
                OpError::ValidationFailed {
                    field: FieldId::Phone,
                    reason: ValidationReason::BadFormat,
                },
            );
        }
        let ghost s0 = *self;
        let id = self.next_id();
        let stored = DriverProfile { id, name, phone, email, address, created_at: now };
        let result = DriverProfile {
            id,
            name: stored.name.clone(),
            phone: stored.phone.clone(),
            email: stored.email.clone(),
            address: stored.address.clone(),
            created_at: now,
        };
        proof {
            assert(stored == result);
        }
        self.drivers.push(stored);
        proof {
            lemma_push_bounded(s0.drivers@, result, s0.id_counter, self.id_counter);
            lemma_bounded_weaken(s0.donors@, s0.id_counter, self.id_counter);
            lemma_bounded_weaken(s0.receivers@, s0.id_counter, self.id_counter);
            lemma_bounded_weaken(s0.postings@, s0.id_counter, self.id_counter);
            lemma_bounded_weaken(s0.assignments@, s0.id_counter, self.id_counter);
            lemma_bounded_weaken(s0.deliveries@, s0.id_counter, self.id_counter);
            lemma_push_increasing(s0.drivers@, result, s0.id_counter);
            lemma_push_disjoint_right(s0.donors@, s0.drivers@, result, s0.id_counter);
            lemma_push_disjoint_right(s0.receivers@, s0.drivers@, result, s0.id_counter);
            lemma_push_disjoint_left(s0.drivers@, result, s0.postings@, s0.id_counter);
            lemma_push_disjoint_left(s0.drivers@, result, s0.assignments@, s0.id_counter);
            lemma_push_disjoint_left(s0.drivers@, result, s0.deliveries@, s0.id_counter);
            lemma_push_emails_unique(s0.drivers@, result);
            assert forall|i: int| 0 <= i < self.assignments@.len() implies {
                let a = #[trigger] self.assignments@[i];
                &&& has_id(self.receivers@, a.receiver_id)
                &&& has_id(self.postings@, a.surplus_posting_id)
                &&& has_id(self.drivers@, a.driver_id)
            } by {
                lemma_push_keeps_has_id(s0.drivers@, result, s0.assignments@[i].driver_id);
            }
            assert forall|i: int| 0 <= i < self.deliveries@.len() implies {
                let d = #[trigger] self.deliveries@[i];
                &&& has_id(self.postings@, d.surplus_posting_id)
                &&& has_id(self.drivers@, d.driver_id)
            } by {
                lemma_push_keeps_has_id(s0.drivers@, result, s0.deliveries@[i].driver_id);
            }
        }
        Ok(result)
    }

    /// Posts surplus food on behalf of a donor.  The caller must be that
    /// donor or be governance-approved.  The new posting starts `Open`
    /// (`assigned` false).
    pub fn create_surplus_posting(
        &mut self,
        caller: u64,
        governance_approved: bool,
        donor_id: u64,
        food_type: FoodType,
        quantity_kg: u32,
        best_before_date: u64,
        handling_instructions: String,
        now: u64,
    ) -> (result: Result<SurplusPosting, OpError>)
        requires
            old(self).wf(),
            old(self).id_counter < u64::MAX,
        ensures
            final(self).wf(),
            match result {
                Ok(p) => {
                    &&& posting_create_error(
                        *old(self),
                        caller,
                        governance_approved,
                        donor_id,
                        quantity_kg,
                        best_before_date,
                        handling_instructions@,
                    ) is None
                    &&& p.id == old(self).id_counter + 1
                    &&& p.donor_id == donor_id
                    &&& p.food_type == food_type
                    &&& p.quantity_kg == quantity_kg
                    &&& p.best_before_date == best_before_date
                    &&& p.handling_instructions == handling_instructions
                    &&& p.assigned == false
                    &&& final(self).postings@ == old(self).postings@.push(p)
                    &&& final(self).id_counter == old(self).id_counter + 1
                    &&& final(self).donors == old(self).donors
                    &&& final(self).receivers == old(self).receivers
                    &&& final(self).drivers == old(self).drivers
                    &&& final(self).assignments == old(self).assignments
                    &&& final(self).deliveries == old(self).deliveries
                },
                Err(e) => {
                    &&& Some(e) == posting_create_error(
                        *old(self),
                        caller,
                        governance_approved,
                        donor_id,
                        quantity_kg,
                        best_before_date,
                        handling_instructions@,
                    )
                    &&& *final(self) == *old(self)
                },
            },
    {
        if !crate::auth::is_authorized(caller, donor_id, governance_approved) {
            return Err(OpError::Unauthorized);
        }
        if donor_id == 0 {
            return Err(
                OpError::ValidationFailed {
                    field: FieldId::DonorId,
                    reason: ValidationReason::Empty,
                },
            );
        }
        if quantity_kg == 0 {
            return Err(
                OpError::ValidationFailed {
                    field: FieldId::QuantityKg,
                    reason: ValidationReason::Empty,
                },
            );
        }
        if best_before_date == 0 {
            return Err(
                OpError::ValidationFailed {
                    field: FieldId::BestBeforeDate,
                    reason: ValidationReason::Empty,
                },
            );
        }
        if !check_nonempty(&handling_instructions) {
            return Err(
                OpError::ValidationFailed {
                    field: FieldId::HandlingInstructions,
                    reason: ValidationReason::Empty,
                },
            );
        }
        if !contains_id(&self.donors, donor_id) {
            return Err(OpError::NotFound { kind: EntityKind::Donor, id: donor_id });
        }
        let ghost s0 = *self;
        let id = self.next_id();
        let stored = SurplusPosting {
            id,
            donor_id,
            food_type,
            quantity_kg,
            best_before_date,
            handling_instructions,
            assigned: false,
        };
        let result = SurplusPosting {
            id,
            donor_id,
            food_type,
            quantity_kg,
            best_before_date,
            handling_instructions: stored.handling_instructions.clone(),
            assigned: false,
        };
        proof {
            assert(stored == result);
        }
        self.postings.push(stored);
        proof {
            lemma_push_bounded(s0.postings@, result, s0.id_counter, self.id_counter);
            lemma_bounded_weaken(s0.donors@, s0.id_counter, self.id_counter);
            lemma_bounded_weaken(s0.receivers@, s0.id_counter, self.id_counter);
            lemma_bounded_weaken(s0.drivers@, s0.id_counter, self.id_counter);
            lemma_bounded_weaken(s0.assignments@, s0.id_counter, self.id_counter);
            lemma_bounded_weaken(s0.deliveries@, s0.id_counter, self.id_counter);
            lemma_push_increasing(s0.postings@, result, s0.id_counter);
            lemma_push_disjoint_right(s0.donors@, s0.postings@, result, s0.id_counter);
            lemma_push_disjoint_right(s0.receivers@, s0.postings@, result, s0.id_counter);
            lemma_push_disjoint_right(s0.drivers@, s0.postings@, result, s0.id_counter);
            lemma_push_disjoint_left(s0.postings@, result, s0.assignments@, s0.id_counter);
            lemma_push_disjoint_left(s0.postings@, result, s0.deliveries@, s0.id_counter);
            crate::coordinator::lemma_fresh_posting_unreferenced(s0, result.id);
            assert forall|i: int| 0 <= i < self.assignments@.len() implies {
                let a = #[trigger] self.assignments@[i];
                &&& has_id(self.receivers@, a.receiver_id)
                &&& has_id(self.postings@, a.surplus_posting_id)
                &&& has_id(self.drivers@, a.driver_id)
            } by {
                lemma_push_keeps_has_id(
                    s0.postings@,
                    result,
                    s0.assignments@[i].surplus_posting_id,
                );
            }
            assert forall|i: int| 0 <= i < self.deliveries@.len() implies {
                let d = #[trigger] self.deliveries@[i];
                &&& has_id(self.postings@, d.surplus_posting_id)
                &&& has_id(self.drivers@, d.driver_id)
            } by {
                lemma_push_keeps_has_id(s0.postings@, result, s0.deliveries@[i].surplus_posting_id);
            }
        }
        Ok(result)
    }
}

} // verus!
