//! Caller identities.

use vstd::prelude::*;

verus! {

/// An account identity, as the execution environment reports it.
///
/// The all-zero identity is reserved: it marks a ledger whose administrator
/// has not been set yet, and it is rejected as a target of
/// `transfer_ownership`.
#[derive(Clone, Copy, PartialEq, Eq, Structural, Debug)]
pub struct Address {
    pub value: u128,
}

impl Address {
    /// The reserved null identity.
    pub open spec fn spec_is_zero(self) -> bool {
        self.value == 0
    }

    /// The reserved null identity.
    pub fn zero() -> (a: Address)
        ensures
            a.spec_is_zero(),
    {
        Address { value: 0 }
    }

    /// Whether this is the reserved null identity.
    pub fn is_zero(&self) -> (r: bool)
        ensures
            r == self.spec_is_zero(),
    {
        self.value == 0
    }
}

} // verus!
