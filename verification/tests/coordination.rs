use surplus_logistics::entities::{AssignmentStatus, BusinessType, FoodType};
use surplus_logistics::errors::{ConflictReason, EntityKind, FieldId, OpError, ValidationReason};
use surplus_logistics::store::Store;

fn s(text: &str) -> String {
    String::from(text)
}

/// A store holding donor Ann (id 1), posting (id 2), driver Bo (id 3) and
/// receiver Cy (id 4), as in the documented walk-through.
fn populated_store() -> Store {
    let mut store = Store::new();
    let donor = store
        .create_donor_profile(
            true,
            s("Ann"),
            s("5551234567"),
            s("ann@x.com"),
            s("1 Rd"),
            BusinessType::Restaurant,
            100,
        )
        .unwrap();
    assert_eq!(donor.id, 1);
    let posting = store
        .create_surplus_posting(1, false, 1, FoodType::Vegetables, 10, 9_999, s("keep cold"), 101)
        .unwrap();
    assert_eq!(posting.id, 2);
    assert!(!posting.assigned);
    let driver = store
        .create_driver_profile(true, s("Bo"), s("5559876543"), s("bo@x.com"), s("2 Rd"), 102)
        .unwrap();
    assert_eq!(driver.id, 3);
    let receiver = store
        .create_receiver_profile(true, s("Cy"), s("5551112222"), s("cy@x.com"), s("3 Rd"), 103)
        .unwrap();
    assert_eq!(receiver.id, 4);
    store
}

#[test]
fn donor_and_posting_get_sequential_ids() {
    let mut store = Store::new();
    let donor = store
        .create_donor_profile(
            true,
            s("Ann"),
            s("5551234567"),
            s("ann@x.com"),
            s("1 Rd"),
            BusinessType::Restaurant,
            100,
        )
        .unwrap();
    assert_eq!(donor.id, 1);
    assert_eq!(donor.name, "Ann");
    assert_eq!(donor.email, "ann@x.com");
    assert_eq!(donor.created_at, 100);
    let posting = store
        .create_surplus_posting(1, false, 1, FoodType::Vegetables, 10, 9_999, s("keep cold"), 101)
        .unwrap();
    assert_eq!(posting.id, 2);
    assert_eq!(posting.donor_id, 1);
    assert_eq!(posting.quantity_kg, 10);
    assert!(!posting.assigned);
}

#[test]
fn assignment_marks_posting_assigned() {
    let mut store = populated_store();
    let assignment = store.create_assignment(3, false, 4, 2, 3, 104).unwrap();
    assert_eq!(assignment.id, 5);
    assert_eq!(assignment.receiver_id, 4);
    assert_eq!(assignment.surplus_posting_id, 2);
    assert_eq!(assignment.driver_id, 3);
    assert_eq!(assignment.status, AssignmentStatus::Pending);
    assert_eq!(assignment.created_at, 104);
    let postings = store.list_postings();
    assert_eq!(postings.len(), 1);
    assert!(postings[0].assigned);
}

#[test]
fn repeated_assignment_is_rejected() {
    let mut store = populated_store();
    store.create_assignment(3, false, 4, 2, 3, 104).unwrap();
    let err = store.create_assignment(3, false, 4, 2, 3, 105).unwrap_err();
    assert_eq!(err, OpError::Conflict { reason: ConflictReason::AlreadyAssigned });
    // The first assignment is unaffected by the rejected repeat.
    let assignments = store.list_assignments();
    assert_eq!(assignments.len(), 1);
    assert_eq!(assignments[0].id, 5);
    assert_eq!(assignments[0].created_at, 104);
}

#[test]
fn delivery_is_recorded_once() {
    let mut store = populated_store();
    store.create_assignment(3, false, 4, 2, 3, 104).unwrap();
    let record = store.record_delivery(3, false, 2, 3, Some(5), 106).unwrap();
    assert_eq!(record.id, 6);
    assert_eq!(record.surplus_posting_id, 2);
    assert_eq!(record.driver_id, 3);
    assert_eq!(record.delivered_at, 106);
    assert_eq!(record.rating, Some(5));
    assert_eq!(store.list_delivery_records().len(), 1);
    let err = store.record_delivery(3, false, 2, 3, Some(5), 107).unwrap_err();
    assert_eq!(err, OpError::Conflict { reason: ConflictReason::AlreadyRecorded });
    assert_eq!(store.list_delivery_records().len(), 1);
}

#[test]
fn empty_name_fails_validation() {
    let mut store = Store::new();
    let err = store
        .create_donor_profile(
            true,
            s(""),
            s("5551234567"),
            s("a@x.com"),
            s("addr"),
            BusinessType::Other,
            100,
        )
        .unwrap_err();
    assert_eq!(
        err,
        OpError::ValidationFailed { field: FieldId::Name, reason: ValidationReason::Empty }
    );
    assert!(store.list_donors().is_empty());
}

#[test]
fn unknown_receiver_fails_assignment() {
    let mut store = populated_store();
    let err = store.create_assignment(3, false, 999, 2, 3, 104).unwrap_err();
    assert_eq!(err, OpError::NotFound { kind: EntityKind::Receiver, id: 999 });
}

#[test]
fn racing_assignments_have_one_winner() {
    // Two calls compete for posting 2 with different drivers; the store
    // serializes them, and whichever lands second is rejected.
    let mut store = populated_store();
    let second_driver = store
        .create_driver_profile(true, s("Di"), s("5553334444"), s("di@x.com"), s("4 Rd"), 104)
        .unwrap();
    let winner = store.create_assignment(3, false, 4, 2, 3, 105).unwrap();
    let loser = store
        .create_assignment(second_driver.id, false, 4, 2, second_driver.id, 105)
        .unwrap_err();
    assert_eq!(loser, OpError::Conflict { reason: ConflictReason::AlreadyAssigned });
    let assignments = store.list_assignments();
    assert_eq!(assignments.len(), 1);
    assert_eq!(assignments[0].id, winner.id);
    assert_eq!(assignments[0].driver_id, 3);
}

#[test]
fn unknown_posting_or_driver_fails_assignment() {
    let mut store = populated_store();
    let no_posting = store.create_assignment(3, false, 4, 42, 3, 104).unwrap_err();
    assert_eq!(no_posting, OpError::NotFound { kind: EntityKind::Posting, id: 42 });
    let no_driver = store.create_assignment(9, true, 4, 2, 9, 104).unwrap_err();
    assert_eq!(no_driver, OpError::NotFound { kind: EntityKind::Driver, id: 9 });
}

#[test]
fn every_required_string_field_is_checked() {
    let mut store = Store::new();
    let no_address = store
        .create_receiver_profile(true, s("Cy"), s("5551112222"), s("cy@x.com"), s(""), 100)
        .unwrap_err();
    assert_eq!(
        no_address,
        OpError::ValidationFailed { field: FieldId::Address, reason: ValidationReason::Empty }
    );
    store
        .create_donor_profile(
            true,
            s("Ann"),
            s("5551234567"),
            s("ann@x.com"),
            s("1 Rd"),
            BusinessType::Restaurant,
            100,
        )
        .unwrap();
    let no_instructions = store
        .create_surplus_posting(1, false, 1, FoodType::Bakery, 2, 9_999, s(""), 101)
        .unwrap_err();
    assert_eq!(
        no_instructions,
        OpError::ValidationFailed {
            field: FieldId::HandlingInstructions,
            reason: ValidationReason::Empty,
        }
    );
}

#[test]
fn duplicate_email_within_registry_is_rejected() {
    let mut store = populated_store();
    let err = store
        .create_donor_profile(
            true,
            s("Al"),
            s("5550001111"),
            s("ann@x.com"),
            s("9 Rd"),
            BusinessType::Grocery,
            110,
        )
        .unwrap_err();
    assert_eq!(err, OpError::Conflict { reason: ConflictReason::DuplicateEmail });
    // A receiver may share a donor's email: uniqueness is per registry.
    let receiver = store
        .create_receiver_profile(true, s("Al"), s("5550001111"), s("ann@x.com"), s("9 Rd"), 111)
        .unwrap();
    assert_eq!(receiver.id, 5);
}

#[test]
fn email_without_at_sign_is_rejected() {
    let mut store = Store::new();
    let err = store
        .create_driver_profile(true, s("Bo"), s("5559876543"), s("bo.x.com"), s("2 Rd"), 100)
        .unwrap_err();
    assert_eq!(
        err,
        OpError::ValidationFailed { field: FieldId::Email, reason: ValidationReason::BadFormat }
    );
}

#[test]
fn malformed_phone_numbers_are_rejected() {
    let mut store = Store::new();
    let short = store
        .create_receiver_profile(true, s("Cy"), s("555123"), s("cy@x.com"), s("3 Rd"), 100)
        .unwrap_err();
    assert_eq!(
        short,
        OpError::ValidationFailed { field: FieldId::Phone, reason: ValidationReason::BadFormat }
    );
    let lettered = store
        .create_receiver_profile(true, s("Cy"), s("55512345ab"), s("cy@x.com"), s("3 Rd"), 100)
        .unwrap_err();
    assert_eq!(
        lettered,
        OpError::ValidationFailed { field: FieldId::Phone, reason: ValidationReason::BadFormat }
    );
}

#[test]
fn profile_creation_requires_governance_approval() {
    let mut store = Store::new();
    let err = store
        .create_donor_profile(
            false,
            s("Ann"),
            s("5551234567"),
            s("ann@x.com"),
            s("1 Rd"),
            BusinessType::Restaurant,
            100,
        )
        .unwrap_err();
    assert_eq!(err, OpError::Unauthorized);
}

#[test]
fn donor_may_post_for_themselves_but_nobody_else() {
    let mut store = populated_store();
    // Caller 3 is not donor 1 and has no approval.
    let err = store
        .create_surplus_posting(3, false, 1, FoodType::Dairy, 5, 9_999, s("chill"), 120)
        .unwrap_err();
    assert_eq!(err, OpError::Unauthorized);
    // Governance approval lets another caller post on the donor's behalf.
    let posting = store
        .create_surplus_posting(3, true, 1, FoodType::Dairy, 5, 9_999, s("chill"), 121)
        .unwrap();
    assert_eq!(posting.donor_id, 1);
}

#[test]
fn posting_rejects_zero_fields_and_unknown_donor() {
    let mut store = populated_store();
    let zero_quantity = store
        .create_surplus_posting(1, false, 1, FoodType::Grains, 0, 9_999, s("dry"), 120)
        .unwrap_err();
    assert_eq!(
        zero_quantity,
        OpError::ValidationFailed { field: FieldId::QuantityKg, reason: ValidationReason::Empty }
    );
    let zero_date = store
        .create_surplus_posting(1, false, 1, FoodType::Grains, 3, 0, s("dry"), 120)
        .unwrap_err();
    assert_eq!(
        zero_date,
        OpError::ValidationFailed {
            field: FieldId::BestBeforeDate,
            reason: ValidationReason::Empty,
        }
    );
    let unknown_donor = store
        .create_surplus_posting(77, false, 77, FoodType::Grains, 3, 9_999, s("dry"), 120)
        .unwrap_err();
    assert_eq!(unknown_donor, OpError::NotFound { kind: EntityKind::Donor, id: 77 });
}

#[test]
fn busy_driver_is_freed_by_delivery() {
    let mut store = populated_store();
    let second_posting = store
        .create_surplus_posting(1, false, 1, FoodType::Fruits, 4, 9_999, s("ripe"), 120)
        .unwrap();
    assert_eq!(second_posting.id, 5);
    store.create_assignment(3, false, 4, 2, 3, 121).unwrap();
    let busy = store.create_assignment(3, false, 4, 5, 3, 122).unwrap_err();
    assert_eq!(busy, OpError::Conflict { reason: ConflictReason::DriverBusy });
    store.record_delivery(3, false, 2, 3, None, 123).unwrap();
    let assignment = store.create_assignment(3, false, 4, 5, 3, 124).unwrap();
    assert_eq!(assignment.surplus_posting_id, 5);
}

#[test]
fn delivery_requires_an_assigned_posting() {
    let mut store = populated_store();
    let open_posting = store.record_delivery(3, false, 2, 3, None, 120).unwrap_err();
    assert_eq!(open_posting, OpError::NotFound { kind: EntityKind::Posting, id: 2 });
    store.create_assignment(3, false, 4, 2, 3, 121).unwrap();
    let unknown_driver = store.record_delivery(8, true, 2, 8, None, 122).unwrap_err();
    assert_eq!(unknown_driver, OpError::NotFound { kind: EntityKind::Driver, id: 8 });
}

#[test]
fn assignment_rejects_zero_ids() {
    let mut store = populated_store();
    let err = store.create_assignment(3, true, 0, 2, 3, 104).unwrap_err();
    assert_eq!(
        err,
        OpError::ValidationFailed { field: FieldId::ReceiverId, reason: ValidationReason::Empty }
    );
    let err = store.create_assignment(3, true, 4, 0, 3, 104).unwrap_err();
    assert_eq!(
        err,
        OpError::ValidationFailed {
            field: FieldId::SurplusPostingId,
            reason: ValidationReason::Empty,
        }
    );
    let err = store.create_assignment(0, true, 4, 2, 0, 104).unwrap_err();
    assert_eq!(
        err,
        OpError::ValidationFailed { field: FieldId::DriverId, reason: ValidationReason::Empty }
    );
}

#[test]
fn assignment_requires_driver_or_governance() {
    let mut store = populated_store();
    // Caller 4 is not driver 3 and has no approval.
    let err = store.create_assignment(4, false, 4, 2, 3, 104).unwrap_err();
    assert_eq!(err, OpError::Unauthorized);
    // Governance approval lets another caller assign on the driver's behalf.
    let assignment = store.create_assignment(4, true, 4, 2, 3, 105).unwrap();
    assert_eq!(assignment.driver_id, 3);
}

#[test]
fn ids_are_unique_across_all_kinds() {
    let mut store = populated_store();
    store.create_assignment(3, false, 4, 2, 3, 104).unwrap();
    store.record_delivery(3, false, 2, 3, Some(4), 105).unwrap();
    let mut ids = vec![
        store.list_donors()[0].id,
        store.list_postings()[0].id,
        store.list_drivers()[0].id,
        store.list_receivers()[0].id,
        store.list_assignments()[0].id,
        store.list_delivery_records()[0].id,
    ];
    assert_eq!(ids, vec![1, 2, 3, 4, 5, 6]);
    ids.dedup();
    assert_eq!(ids.len(), 6);
    assert_eq!(store.last_issued_id(), 6);
}

#[test]
fn listings_keep_insertion_order() {
    let mut store = Store::new();
    assert!(store.list_donors().is_empty());
    assert!(store.list_receivers().is_empty());
    assert!(store.list_drivers().is_empty());
    assert!(store.list_postings().is_empty());
    assert!(store.list_assignments().is_empty());
    assert!(store.list_delivery_records().is_empty());
    store
        .create_driver_profile(true, s("Bo"), s("5559876543"), s("bo@x.com"), s("2 Rd"), 100)
        .unwrap();
    store
        .create_driver_profile(true, s("Di"), s("5551112222"), s("di@x.com"), s("4 Rd"), 101)
        .unwrap();
    let drivers = store.list_drivers();
    assert_eq!(drivers.len(), 2);
    assert_eq!(drivers[0].name, "Bo");
    assert_eq!(drivers[1].name, "Di");
    assert!(drivers[0].id < drivers[1].id);
}

#[test]
fn delivery_without_rating_is_stored() {
    let mut store = populated_store();
    store.create_assignment(3, false, 4, 2, 3, 104).unwrap();
    let record = store.record_delivery(3, false, 2, 3, None, 105).unwrap();
    assert_eq!(record.rating, None);
    // Terminal state: the posting stays flagged and cannot be re-assigned.
    assert!(store.list_postings()[0].assigned);
    let err = store.create_assignment(3, false, 4, 2, 3, 106).unwrap_err();
    assert_eq!(err, OpError::Conflict { reason: ConflictReason::AlreadyAssigned });
}
