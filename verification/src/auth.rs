//! The authorization rule every mutating operation applies.
//!
//! A caller may always act on their own behalf: the donor posting their own
//! surplus, the driver taking or completing their own assignment.  Any other
//! caller must be approved by the external governance authority.  That
//! oracle is a remote collaborator; the operations here receive its verdict
//! as a plain `bool`, already folded to `false` when the remote call failed
//! (the service fails closed).

use vstd::prelude::*;

verus! {

/// The asymmetric rule: acting on one's own behalf needs no approval;
/// everything else does.
pub open spec fn authorized(caller: u64, subject: u64, governance_approved: bool) -> bool {
    caller == subject || governance_approved
}

/// Decides `authorized`.
pub fn is_authorized(caller: u64, subject: u64, governance_approved: bool) -> (r: bool)
    ensures
        r == authorized(caller, subject, governance_approved),
{
    caller == subject || governance_approved
}

} // verus!
