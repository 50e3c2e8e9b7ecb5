//! The error taxonomy shared by every mutating operation.
//!
//! Each operation returns a typed failure instead of panicking: either the
//! caller was not authorized, a supplied field was malformed, a referenced
//! entity does not exist, or the request collides with state that is already
//! present (a duplicate email, an already-assigned posting, a busy driver,
//! an already-recorded delivery).

use vstd::prelude::*;

verus! {

/// The entity kinds held by the six registries.
#[derive(Clone, Copy, PartialEq, Eq, Structural, Debug)]
pub enum EntityKind {
    Donor,
    Receiver,
    Driver,
    Posting,
    Assignment,
    Delivery,
}

/// The caller-supplied field that a validation failure points at.
#[derive(Clone, Copy, PartialEq, Eq, Structural, Debug)]
pub enum FieldId {
    Name,
    Phone,
    Email,
    Address,
    DonorId,
    ReceiverId,
    SurplusPostingId,
    DriverId,
    QuantityKg,
    BestBeforeDate,
    HandlingInstructions,
}

/// Why a field failed validation: it was empty (or zero, for a numeric
/// field), or it did not have the required shape.
#[derive(Clone, Copy, PartialEq, Eq, Structural, Debug)]
pub enum ValidationReason {
    Empty,
    BadFormat,
}

/// The state collision that a conflict failure reports.
#[derive(Clone, Copy, PartialEq, Eq, Structural, Debug)]
pub enum ConflictReason {
    DuplicateEmail,
    AlreadyAssigned,
    DriverBusy,
    AlreadyRecorded,
}

/// The failure result of a mutating operation.
#[derive(Clone, Copy, PartialEq, Eq, Structural, Debug)]
#[allow(inconsistent_fields)]
pub enum OpError {
    Unauthorized,
    ValidationFailed { field: FieldId, reason: ValidationReason },
    NotFound { kind: EntityKind, id: u64 },
    Conflict { reason: ConflictReason },
}

} // verus!
