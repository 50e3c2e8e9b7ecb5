//! The six entity kinds held by the registries.
//!
//! Every entity carries the globally unique id it was issued at creation;
//! the three profile kinds also carry the email whose uniqueness the
//! validation gate enforces within each registry.  The `Entity` and
//! `ProfileEntity` traits expose those two facts so that the registry
//! helpers can be written once for all kinds.

use vstd::prelude::*;

verus! {

/// What line of business a donor is in.
#[derive(Clone, Copy, PartialEq, Eq, Structural, Debug)]
pub enum BusinessType {
    Restaurant,
    Grocery,
    Bakery,
    Other,
}

/// What kind of food a surplus posting offers.
#[derive(Clone, Copy, PartialEq, Eq, Structural, Debug)]
pub enum FoodType {
    Vegetables,
    Fruits,
    Dairy,
    Meat,
    Grains,
    Bakery,
    Beverages,
    Other,
}

/// The status an assignment carries; every new assignment starts `Pending`.
#[derive(Clone, Copy, PartialEq, Eq, Structural, Debug)]
pub enum AssignmentStatus {
    Pending,
}

/// A registered food donor.
#[derive(Debug)]
pub struct DonorProfile {
    pub id: u64,
    pub name: String,
    pub phone: String,
    pub email: String,
    pub address: String,
    pub business_type: BusinessType,
    pub created_at: u64,
}

/// A registered receiver of donated food.
#[derive(Debug)]
pub struct ReceiverProfile {
    pub id: u64,
    pub name: String,
    pub phone: String,
    pub email: String,
    pub address: String,
    pub created_at: u64,
}

/// A registered delivery driver.
#[derive(Debug)]
pub struct DriverProfile {
    pub id: u64,
    pub name: String,
    pub phone: String,
    pub email: String,
    pub address: String,
    pub created_at: u64,
}

/// A donor's offer of surplus food.  `assigned` is true exactly while an
/// assignment references the posting.
#[derive(Debug)]
pub struct SurplusPosting {
    pub id: u64,
    pub donor_id: u64,
    pub food_type: FoodType,
    pub quantity_kg: u32,
    pub best_before_date: u64,
    pub handling_instructions: String,
    pub assigned: bool,
}

/// The binding of one driver to one posting for delivery to one receiver.
#[derive(Clone, Copy, Debug)]
pub struct Assignment {
    pub id: u64,
    pub receiver_id: u64,
    pub surplus_posting_id: u64,
    pub driver_id: u64,
    pub status: AssignmentStatus,
    pub created_at: u64,
}

/// The terminal confirmation that a posting's assignment was fulfilled.
#[derive(Clone, Copy, Debug)]
pub struct DeliveryRecord {
    pub id: u64,
    pub surplus_posting_id: u64,
    pub driver_id: u64,
    pub delivered_at: u64,
    pub rating: Option<u8>,
}

/// Anything a registry holds: it carries the unique id it was issued.
pub trait Entity {
    spec fn eid(&self) -> u64;

    fn entity_id(&self) -> (r: u64)
        ensures
            r == self.eid(),
    ;
}

/// A profile entity: donors, receivers and drivers all carry the same
/// contact fields, among them the email that must be unique within its own
/// registry.
pub trait ProfileEntity: Entity {
    spec fn spec_name(&self) -> Seq<char>;

    spec fn spec_phone(&self) -> Seq<char>;

    spec fn spec_email(&self) -> Seq<char>;

    spec fn spec_address(&self) -> Seq<char>;

    fn email_ref(&self) -> (r: &String)
        ensures
            r@ == self.spec_email(),
    ;
}

impl Entity for DonorProfile {
    open spec fn eid(&self) -> u64 {
        self.id
    }

    fn entity_id(&self) -> u64 {
        self.id
    }
}

impl ProfileEntity for DonorProfile {
    open spec fn spec_name(&self) -> Seq<char> {
        self.name@
    }

    open spec fn spec_phone(&self) -> Seq<char> {
        self.phone@
    }

    open spec fn spec_email(&self) -> Seq<char> {
        self.email@
    }

    open spec fn spec_address(&self) -> Seq<char> {
        self.address@
    }

    fn email_ref(&self) -> &String {
        &self.email
    }
}

impl Entity for ReceiverProfile {
    open spec fn eid(&self) -> u64 {
        self.id
    }

    fn entity_id(&self) -> u64 {
        self.id
    }
}

impl ProfileEntity for ReceiverProfile {
    open spec fn spec_name(&self) -> Seq<char> {
        self.name@
    }

    open spec fn spec_phone(&self) -> Seq<char> {
        self.phone@
    }

    open spec fn spec_email(&self) -> Seq<char> {
        self.email@
    }

    open spec fn spec_address(&self) -> Seq<char> {
        self.address@
    }

    fn email_ref(&self) -> &String {
        &self.email
    }
}

impl Entity for DriverProfile {
    open spec fn eid(&self) -> u64 {
        self.id
    }

    fn entity_id(&self) -> u64 {
        self.id
    }
}

impl ProfileEntity for DriverProfile {
    open spec fn spec_name(&self) -> Seq<char> {
        self.name@
    }

    open spec fn spec_phone(&self) -> Seq<char> {
        self.phone@
    }

    open spec fn spec_email(&self) -> Seq<char> {
        self.email@
    }

    open spec fn spec_address(&self) -> Seq<char> {
        self.address@
    }

    fn email_ref(&self) -> &String {
        &self.email
    }
}

impl Entity for SurplusPosting {
    open spec fn eid(&self) -> u64 {
        self.id
    }

    fn entity_id(&self) -> u64 {
        self.id
    }
}

impl Entity for Assignment {
    open spec fn eid(&self) -> u64 {
        self.id
    }

    fn entity_id(&self) -> u64 {
        self.id
    }
}

impl Entity for DeliveryRecord {
    open spec fn eid(&self) -> u64 {
        self.id
    }

    fn entity_id(&self) -> u64 {
        self.id
    }
}

} // verus!
