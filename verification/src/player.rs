//! The record kept for the player.

use vstd::prelude::*;

verus! {

/// Number of levels a player can be on; levels run from 0 to 3.
pub const LEVELS: u8 = 4;

/// One more than the largest number of served customers that is counted.
pub const SERVED_LIMIT: u8 = 64;

/// The player behind the counter.
#[derive(Debug, Clone, Copy, PartialEq, Eq)]
pub struct Player {
    level: u8,
    customers_served: u8,
}

/// What a player record means: the level reached and the number of
/// customers served so far.
pub struct PlayerView {
    pub level: nat,
    pub customers_served: nat,
}

impl View for Player {
    type V = PlayerView;

    closed spec fn view(&self) -> PlayerView {
        PlayerView {
            level: self.level as nat,
            customers_served: self.customers_served as nat,
        }
    }
}

impl Player {
    #[verifier::type_invariant]
    spec fn in_range(self) -> bool {
        self.level < LEVELS && self.customers_served < SERVED_LIMIT
    }

    /// A new player starts on level 0 and has served nobody.
    pub fn new() -> (p: Player)
        ensures
            p@ == (PlayerView { level: 0, customers_served: 0 }),
    {
        Player { level: 0, customers_served: 0 }
    }

    /// The level the player is on, always below [`LEVELS`].
    pub fn level(&self) -> (level: u8)
        ensures
            level == self@.level,
            level < LEVELS,
    {
        proof {
            use_type_invariant(self);
        }
        self.level
    }

    /// How many customers the player has served, always below
    /// [`SERVED_LIMIT`].
    pub fn customers_served(&self) -> (served: u8)
        ensures
            served == self@.customers_served,
            served < SERVED_LIMIT,
    {
        proof {
            use_type_invariant(self);
        }
        self.customers_served
    }
}

} // verus!
