//! The spawner and the dispatcher taken together.
//!
//! This is a model of a game in which nothing happens but arrivals: the
//! spawner takes its decisions one after the other, and each arrival that
//! it publishes is handled before it takes the next. The model has no
//! executable counterpart; it serves to state what the two loops add up to.

use vstd::prelude::*;
use crate::config::ConfigView;
use crate::spawner::{spawner_next, SpawnerAction, SpawnerPhase};
use crate::store::SharedView;

verus! {

/// A game of arrivals at some moment.
pub struct Play {
    /// The shared state.
    pub store: SharedView,
    /// Where the spawner stands in its round.
    pub phase: SpawnerPhase,
    /// How many arrivals the spawner has published so far.
    pub attempts: nat,
    /// Whether the spawner has left its loop.
    pub over: bool,
}

impl Play {
    /// The game before the spawner has taken any decision.
    pub open spec fn start(max_line_size: nat) -> Play {
        Play {
            store: SharedView::initial(max_line_size),
            phase: SpawnerPhase::Idle,
            attempts: 0,
            over: false,
        }
    }

    /// The game after the spawner has taken its next decision and the
    /// dispatcher has handled what it published, if anything. Once the
    /// spawner has left its loop nothing changes any more.
    pub open spec fn step(self, cfg: ConfigView) -> Play {
        if self.over {
            self
        } else {
            let next = spawner_next(
                self.phase,
                self.store.running,
                self.store.spawning_enabled,
                cfg,
            );
            match next.1 {
                SpawnerAction::Stop => Play { phase: next.0, over: true, ..self },
                SpawnerAction::Sleep(_) => Play { phase: next.0, ..self },
                SpawnerAction::Publish(event) => Play {
                    phase: next.0,
                    store: self.store.dispatched(event),
                    attempts: self.attempts + 1,
                    ..self
                },
            }
        }
    }

    /// The game after `steps` decisions of the spawner.
    pub open spec fn after(self, cfg: ConfigView, steps: nat) -> Play
        decreases steps,
    {
        if steps == 0 {
            self
        } else {
            self.after(cfg, (steps - 1) as nat).step(cfg)
        }
    }
}

/// The smaller of two numbers.
pub open spec fn at_most(a: nat, limit: nat) -> nat {
    if a <= limit {
        a
    } else {
        limit
    }
}

/// How a game of arrivals runs, for a line of any length and whatever the
/// wait between two arrivals: every second decision of the spawner is an
/// arrival; the first arrivals fill the line one by one; the arrival after
/// that finds the line full and ends the game; and the spawner then leaves
/// its loop with its next decision, so that there is exactly one arrival
/// more than the line has room for.
pub proof fn lemma_game_of_arrivals(cfg: ConfigView, steps: nat)
    ensures
        ({
            let room: nat = cfg.max_line_size;
            let game = Play::start(room).after(cfg, steps);
            &&& game.attempts == at_most(steps / 2, room + 1)
            &&& game.store.customers.len() == at_most(steps / 2, room)
            &&& game.store.running == (steps / 2 <= room)
            &&& game.over == (steps > 2 * (room + 1))
            &&& game.store.spawning_enabled
            &&& game.store.max_line_size == room
            &&& game.phase == if steps % 2 == 1 && steps / 2 <= room {
                SpawnerPhase::Arrived
            } else {
                SpawnerPhase::Idle
            }
        }),
    decreases steps,
{
    if steps > 0 {
        lemma_game_of_arrivals(cfg, (steps - 1) as nat);
    }
}

} // verus!
