//! The record kept for one waiting customer.

use vstd::prelude::*;

verus! {

/// Number of distinct drink identifiers a customer can ask for.
pub const DRINK_IDS: u8 = 16;

/// A customer standing in the line.
#[derive(Debug, Clone, Copy, PartialEq, Eq)]
pub struct Customer {
    desired_drink: u8,
}

/// What a customer record means: the drink the customer asks for.
pub struct CustomerView {
    pub desired_drink: nat,
}

impl View for Customer {
    type V = CustomerView;

    closed spec fn view(&self) -> CustomerView {
        CustomerView { desired_drink: self.desired_drink as nat }
    }
}

impl Customer {
    #[verifier::type_invariant]
    spec fn in_range(self) -> bool {
        self.desired_drink < DRINK_IDS
    }

    /// A fresh customer asks for drink 0.
    pub fn new() -> (c: Customer)
        ensures
            c@ == (CustomerView { desired_drink: 0 }),
    {
        Customer { desired_drink: 0 }
    }

    /// The identifier of the drink this customer wants, always below
    /// [`DRINK_IDS`].
    pub fn desired_drink(&self) -> (id: u8)
        ensures
            id == self@.desired_drink,
            id < DRINK_IDS,
    {
        proof {
            use_type_invariant(self);
        }
        self.desired_drink
    }

    /// Records the drink the customer wants. Only the low four bits of
    /// `id` are kept, so the stored identifier is `id` modulo 16.
    pub fn set_desired_drink(&mut self, id: u8)
        ensures
            final(self)@ == (CustomerView { desired_drink: (id % DRINK_IDS) as nat }),
    {
        self.desired_drink = id % DRINK_IDS;
    }
}

} // verus!
