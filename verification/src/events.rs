//! The control messages that the loops of the game send to each other.

use vstd::prelude::*;

verus! {

/// A message on the event bus.
#[derive(Debug, Clone, Copy, PartialEq, Eq, Structural)]
pub enum Event {
    /// The player asked to leave.
    Quit,
    /// No further customers are to arrive.
    StopCustomerSpawning,
    /// A customer has arrived and wants to join the line.
    SpawnCustomer,
}

} // verus!
