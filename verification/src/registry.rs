//! Registry helpers, written once for every entity kind.
//!
//! A registry is a vector of entities in insertion order.  The spec
//! predicates here describe the facts the store's invariant is built from:
//! which ids a registry holds, that ids stay within the counter's range and
//! strictly increase in insertion order, that two registries share no id,
//! and that profile emails are unique within one registry.  The lemmas show
//! that appending an entity with a fresh id preserves each fact.

use vstd::prelude::*;

use crate::entities::{Entity, ProfileEntity};
use crate::validate::{nonempty, valid_email, valid_phone};

verus! {

/// The registry holds an entity with this id.
pub open spec fn has_id<T: Entity>(s: Seq<T>, id: u64) -> bool {
    exists|i: int| 0 <= i < s.len() && #[trigger] s[i].eid() == id
}

/// Every id in the registry lies in `1 ..= bound`.
pub open spec fn ids_bounded<T: Entity>(s: Seq<T>, bound: u64) -> bool {
    forall|i: int| 0 <= i < s.len() ==> 1 <= #[trigger] s[i].eid() <= bound
}

/// Ids strictly increase in insertion order (so no id repeats).
pub open spec fn ids_increasing<T: Entity>(s: Seq<T>) -> bool {
    forall|i: int, j: int|
        0 <= i < j < s.len() ==> #[trigger] s[i].eid() < #[trigger] s[j].eid()
}

/// No id occurs in both registries.
pub open spec fn ids_disjoint<A: Entity, B: Entity>(x: Seq<A>, y: Seq<B>) -> bool {
    forall|i: int, j: int|
        0 <= i < x.len() && 0 <= j < y.len()
            ==> #[trigger] x[i].eid() != #[trigger] y[j].eid()
}

/// Some entity in the registry already carries this email.
pub open spec fn email_taken<T: ProfileEntity>(s: Seq<T>, email: Seq<char>) -> bool {
    exists|i: int| 0 <= i < s.len() && #[trigger] s[i].spec_email() == email
}

/// Every profile in the registry passed the validation gate: name and
/// address non-empty, email containing `@`, phone of ten decimal digits.
pub open spec fn profiles_valid<T: ProfileEntity>(s: Seq<T>) -> bool {
    forall|i: int|
        0 <= i < s.len() ==> {
            let p = #[trigger] s[i];
            &&& nonempty(p.spec_name())
            &&& nonempty(p.spec_address())
            &&& valid_email(p.spec_email())
            &&& valid_phone(p.spec_phone())
        }
}

/// No two entities in the registry share an email.
pub open spec fn emails_unique<T: ProfileEntity>(s: Seq<T>) -> bool {
    forall|i: int, j: int|
        0 <= i < j < s.len()
            ==> #[trigger] s[i].spec_email() != #[trigger] s[j].spec_email()
}

/// Decides `has_id` for a registry.
pub fn contains_id<T: Entity>(v: &Vec<T>, id: u64) -> (r: bool)
    ensures
        r == has_id(v@, id),
{
    for i in 0..v.len()
        invariant
            forall|j: int| 0 <= j < i ==> #[trigger] v@[j].eid() != id,
    {
        if v[i].entity_id() == id {
            return true;
        }
    }
    false
}

/// Decides `email_taken` for a registry.
pub fn email_in_use<T: ProfileEntity>(v: &Vec<T>, email: &String) -> (r: bool)
    ensures
        r == email_taken(v@, email@),
{
    for i in 0..v.len()
        invariant
            forall|j: int| 0 <= j < i ==> #[trigger] v@[j].spec_email() != email@,
    {
        if *v[i].email_ref() == *email {
            return true;
        }
    }
    false
}

/// Appending keeps every id that was already present.
pub proof fn lemma_push_keeps_has_id<T: Entity>(s: Seq<T>, e: T, id: u64)
    requires
        has_id(s, id),
    ensures
        has_id(s.push(e), id),
{
    let i = choose|i: int| 0 <= i < s.len() && #[trigger] s[i].eid() == id;
    assert(s.push(e)[i].eid() == id);
}

/// Appending an entity with a fresh id above the old bound keeps the range
/// fact for the new bound.
pub proof fn lemma_push_bounded<T: Entity>(s: Seq<T>, e: T, bound: u64, new_bound: u64)
    requires
        ids_bounded(s, bound),
        bound <= new_bound,
        1 <= e.eid() <= new_bound,
    ensures
        ids_bounded(s.push(e), new_bound),
{
}

/// Raising the bound alone keeps the range fact.
pub proof fn lemma_bounded_weaken<T: Entity>(s: Seq<T>, bound: u64, new_bound: u64)
    requires
        ids_bounded(s, bound),
        bound <= new_bound,
    ensures
        ids_bounded(s, new_bound),
{
}

/// Appending an id above the old bound keeps ids strictly increasing.
pub proof fn lemma_push_increasing<T: Entity>(s: Seq<T>, e: T, bound: u64)
    requires
        ids_increasing(s),
        ids_bounded(s, bound),
        e.eid() > bound,
    ensures
        ids_increasing(s.push(e)),
{
}

/// Appending an id above the other registry's bound keeps disjointness.
pub proof fn lemma_push_disjoint_left<A: Entity, B: Entity>(
    x: Seq<A>,
    e: A,
    y: Seq<B>,
    bound: u64,
)
    requires
        ids_disjoint(x, y),
        ids_bounded(y, bound),
        e.eid() > bound,
    ensures
        ids_disjoint(x.push(e), y),
{
}

/// The mirror image of `lemma_push_disjoint_left`.
pub proof fn lemma_push_disjoint_right<A: Entity, B: Entity>(
    x: Seq<A>,
    y: Seq<B>,
    e: B,
    bound: u64,
)
    requires
        ids_disjoint(x, y),
        ids_bounded(x, bound),
        e.eid() > bound,
    ensures
        ids_disjoint(x, y.push(e)),
{
}

/// Appending an email nobody holds keeps emails unique.
pub proof fn lemma_push_emails_unique<T: ProfileEntity>(s: Seq<T>, e: T)
    requires
        emails_unique(s),
        !email_taken(s, e.spec_email()),
    ensures
        emails_unique(s.push(e)),
{
}

} // verus!
