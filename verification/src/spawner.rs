//! The decisions of the loop that lets customers arrive.
//!
//! The loop itself sleeps and publishes; what it does next is decided
//! here, from the phase it is in and the two flags of the shared state.

use vstd::prelude::*;
use crate::config::{Config, ConfigView};
use crate::events::Event;

verus! {

/// Nanoseconds in a second.
pub const NANOS_PER_SECOND: u128 = 1_000_000_000;

/// How long the spawner waits before it looks again, while customers are
/// kept from arriving: one second, in nanoseconds.
pub const DISABLED_RETRY_NANOS: u128 = 1_000_000_000;

/// Where the spawner stands in its round.
#[derive(Debug, Clone, Copy, PartialEq, Eq, Structural)]
pub enum SpawnerPhase {
    /// At the start of a round.
    Idle,
    /// The wait for the next arrival has just ended.
    Arrived,
}

/// What the spawner does next.
#[derive(Debug, Clone, Copy, PartialEq, Eq, Structural)]
pub enum SpawnerAction {
    /// Leave the loop.
    Stop,
    /// Sleep for this many nanoseconds, or until woken.
    Sleep(u128),
    /// Put this event on the bus.
    Publish(Event),
}

/// The wait between two arrivals, in nanoseconds.
pub open spec fn arrival_wait_nanos(cfg: ConfigView) -> nat {
    cfg.customer_arrival_wait * (NANOS_PER_SECOND as nat)
}

/// The phase that follows and the action to take, given the phase the
/// spawner is in and the flags as it reads them.
///
/// At the start of a round a stopped game ends the loop; while customers
/// are kept from arriving the spawner sleeps a second and starts over;
/// otherwise it sleeps until the next arrival is due. When that wait has
/// ended, a stopped game ends the loop without an arrival; otherwise the
/// arrival is published, whether or not arrivals were stopped meanwhile.
///
/// The wait of any settings that a program can hold fits the `u128` of
/// [`SpawnerAction::Sleep`]; [`spawner_step`] says so.
pub open spec fn spawner_next(
    phase: SpawnerPhase,
    running: bool,
    spawning_enabled: bool,
    cfg: ConfigView,
) -> (SpawnerPhase, SpawnerAction) {
    if !running {
        (SpawnerPhase::Idle, SpawnerAction::Stop)
    } else {
        match phase {
            SpawnerPhase::Idle => if spawning_enabled {
                (SpawnerPhase::Arrived, SpawnerAction::Sleep(arrival_wait_nanos(cfg) as u128))
            } else {
                (SpawnerPhase::Idle, SpawnerAction::Sleep(DISABLED_RETRY_NANOS))
            },
            SpawnerPhase::Arrived => (
                SpawnerPhase::Idle,
                SpawnerAction::Publish(Event::SpawnCustomer),
            ),
        }
    }
}

/// One decision of the spawner: the phase it enters and what it does.
pub fn spawner_step(
    phase: SpawnerPhase,
    running: bool,
    spawning_enabled: bool,
    cfg: &Config,
) -> (next: (SpawnerPhase, SpawnerAction))
    ensures
        next == spawner_next(phase, running, spawning_enabled, cfg@),
        arrival_wait_nanos(cfg@) <= u128::MAX,
{
    if !running {
        return (SpawnerPhase::Idle, SpawnerAction::Stop);
    }
    match phase {
        SpawnerPhase::Idle => {
            if spawning_enabled {
                let seconds: u128 = cfg.customer_arrival_wait as u128;
                assert(seconds * NANOS_PER_SECOND <= u128::MAX) by (nonlinear_arith)
                    requires
                        seconds <= u64::MAX,
                        NANOS_PER_SECOND == 1_000_000_000,
                ;
                (SpawnerPhase::Arrived, SpawnerAction::Sleep(seconds * NANOS_PER_SECOND))
            } else {
                (SpawnerPhase::Idle, SpawnerAction::Sleep(DISABLED_RETRY_NANOS))
            }
        },
        SpawnerPhase::Arrived => (SpawnerPhase::Idle, SpawnerAction::Publish(Event::SpawnCustomer)),
    }
}

/// The phase that the spawner is in after it has taken one decision for
/// each entry of `running`, reading that entry as the running flag, while
/// customers were kept from arriving all along.
pub open spec fn phase_while_disabled(
    phase: SpawnerPhase,
    running: Seq<bool>,
    cfg: ConfigView,
) -> SpawnerPhase
    decreases running.len(),
{
    if running.len() == 0 {
        phase
    } else {
        spawner_next(
            phase_while_disabled(phase, running.drop_last(), cfg),
            running.last(),
            false,
            cfg,
        ).0
    }
}

/// A spawner that starts a round while customers are kept from arriving
/// publishes no arrival for as long as they are, however many decisions it
/// takes and whatever it reads of the running flag.
pub proof fn lemma_disabled_spawner_never_publishes(
    running: Seq<bool>,
    next_running: bool,
    cfg: ConfigView,
)
    ensures
        phase_while_disabled(SpawnerPhase::Idle, running, cfg) == SpawnerPhase::Idle,
        !(spawner_next(
            phase_while_disabled(SpawnerPhase::Idle, running, cfg),
            next_running,
            false,
            cfg,
        ).1 is Publish),
    decreases running.len(),
{
    if running.len() > 0 {
        lemma_disabled_spawner_never_publishes(running.drop_last(), running.last(), cfg);
    }
}

/// In a game that has been stopped the spawner leaves its loop, whatever
/// phase it is in, and publishes nothing.
pub proof fn lemma_stopped_spawner_stops(phase: SpawnerPhase, spawning_enabled: bool, cfg: ConfigView)
    ensures
        spawner_next(phase, false, spawning_enabled, cfg).1 == SpawnerAction::Stop,
{
}

} // verus!
