use coffee_shop::config::{default_drinks, Config};
use coffee_shop::events::Event;
use coffee_shop::input::{input_step, Key};
use coffee_shop::sleep::{cancel_sleep, cancellable_sleep};
use coffee_shop::spawner::{
    spawner_step, SpawnerAction, SpawnerPhase, DISABLED_RETRY_NANOS, NANOS_PER_SECOND,
};
use coffee_shop::store::Store;

const TEN_SECONDS: u128 = 10_000_000_000;

fn settings_with(customer_arrival_wait: usize, max_line_size: usize) -> Config {
    Config {
        customer_arrival_wait,
        max_line_size,
        right_side_menu_padding: 1,
        drinks: default_drinks(),
    }
}

#[test]
fn fresh_sleep_has_its_whole_length_ahead() {
    let mut cancelled = false;
    assert_eq!(cancellable_sleep(&mut cancelled, 0, TEN_SECONDS), Some(TEN_SECONDS));
    assert!(!cancelled);
}

#[test]
fn sleep_goes_on_for_the_time_that_is_left() {
    let mut cancelled = false;
    assert_eq!(
        cancellable_sleep(&mut cancelled, 4_000_000_000, TEN_SECONDS),
        Some(6_000_000_000)
    );
    assert_eq!(cancellable_sleep(&mut cancelled, TEN_SECONDS - 1, TEN_SECONDS), Some(1));
    assert!(!cancelled);
}

#[test]
fn sleep_ends_when_its_time_is_up() {
    let mut cancelled = false;
    assert_eq!(cancellable_sleep(&mut cancelled, TEN_SECONDS, TEN_SECONDS), None);
    assert_eq!(cancellable_sleep(&mut cancelled, TEN_SECONDS + 1, TEN_SECONDS), None);
    assert_eq!(cancellable_sleep(&mut cancelled, u128::MAX, TEN_SECONDS), None);
    assert!(!cancelled);
}

#[test]
fn sleep_of_no_length_ends_at_once() {
    let mut cancelled = false;
    assert_eq!(cancellable_sleep(&mut cancelled, 0, 0), None);
}

#[test]
fn cancelled_sleep_ends_at_once_however_long_it_is() {
    let mut cancelled = false;
    cancel_sleep(&mut cancelled);
    assert!(cancelled);
    assert_eq!(cancellable_sleep(&mut cancelled, 1, TEN_SECONDS), None);
    assert!(!cancelled);
}

#[test]
fn flag_is_reset_so_that_the_next_sleep_is_whole() {
    let mut cancelled = true;
    assert_eq!(cancellable_sleep(&mut cancelled, 0, TEN_SECONDS), None);
    assert!(!cancelled);
    assert_eq!(cancellable_sleep(&mut cancelled, 0, TEN_SECONDS), Some(TEN_SECONDS));
    assert!(!cancelled);
}

#[test]
fn escape_asks_to_quit() {
    assert_eq!(input_step(Key::Esc), Some(Event::Quit));
}

#[test]
fn other_keys_are_ignored() {
    for key in [
        Key::Enter,
        Key::Backspace,
        Key::Tab,
        Key::Left,
        Key::Right,
        Key::Up,
        Key::Down,
        Key::Char('q'),
        Key::Char('\x1B'),
        Key::F(1),
        Key::Other,
    ] {
        assert_eq!(input_step(key), None);
    }
}

#[test]
fn spawner_waits_for_the_arrival_interval() {
    let cfg = settings_with(10, 10);
    assert_eq!(
        spawner_step(SpawnerPhase::Idle, true, true, &cfg),
        (SpawnerPhase::Arrived, SpawnerAction::Sleep(TEN_SECONDS))
    );
    assert_eq!(NANOS_PER_SECOND, 1_000_000_000);
}

#[test]
fn spawner_publishes_after_the_wait() {
    let cfg = settings_with(10, 10);
    assert_eq!(
        spawner_step(SpawnerPhase::Arrived, true, true, &cfg),
        (SpawnerPhase::Idle, SpawnerAction::Publish(Event::SpawnCustomer))
    );
}

#[test]
fn spawner_publishes_an_arrival_that_was_already_due() {
    let cfg = settings_with(10, 10);
    assert_eq!(
        spawner_step(SpawnerPhase::Arrived, true, false, &cfg),
        (SpawnerPhase::Idle, SpawnerAction::Publish(Event::SpawnCustomer))
    );
}

#[test]
fn disabled_spawner_retries_every_second() {
    let cfg = settings_with(10, 10);
    assert_eq!(
        spawner_step(SpawnerPhase::Idle, true, false, &cfg),
        (SpawnerPhase::Idle, SpawnerAction::Sleep(1_000_000_000))
    );
    assert_eq!(DISABLED_RETRY_NANOS, 1_000_000_000);
}

#[test]
fn spawner_stops_with_the_game() {
    let cfg = settings_with(10, 10);
    for phase in [SpawnerPhase::Idle, SpawnerPhase::Arrived] {
        for enabled in [true, false] {
            assert_eq!(
                spawner_step(phase, false, enabled, &cfg),
                (SpawnerPhase::Idle, SpawnerAction::Stop)
            );
        }
    }
}

#[test]
fn longest_arrival_interval_fits() {
    let cfg = settings_with(usize::MAX, 10);
    assert_eq!(
        spawner_step(SpawnerPhase::Idle, true, true, &cfg),
        (
            SpawnerPhase::Arrived,
            SpawnerAction::Sleep(usize::MAX as u128 * 1_000_000_000)
        )
    );
}

/// Runs the spawner and the dispatcher in turn, each event being handled as
/// soon as it is published, and returns what the spawner did.
fn play(cfg: &Config, store: &mut Store, rounds: usize) -> Vec<SpawnerAction> {
    let mut phase = SpawnerPhase::Idle;
    let mut actions = Vec::new();
    for _ in 0..rounds {
        let (next, action) =
            spawner_step(phase, store.is_running(), store.is_spawning_enabled(), cfg);
        phase = next;
        actions.push(action);
        match action {
            SpawnerAction::Stop => break,
            SpawnerAction::Sleep(_) => {}
            SpawnerAction::Publish(event) => {
                store.dispatch(event);
            }
        }
    }
    actions
}

#[test]
fn third_arrival_at_a_line_of_two_ends_the_game() {
    let cfg = settings_with(0, 2);
    let mut store = Store::new(&cfg);
    let mut phase = SpawnerPhase::Idle;
    let mut lengths = Vec::new();
    let mut attempts = 0;
    loop {
        let (next, action) =
            spawner_step(phase, store.is_running(), store.is_spawning_enabled(), &cfg);
        phase = next;
        match action {
            SpawnerAction::Stop => break,
            SpawnerAction::Sleep(nanos) => assert_eq!(nanos, 0),
            SpawnerAction::Publish(event) => {
                assert_eq!(event, Event::SpawnCustomer);
                attempts += 1;
                store.dispatch(event);
                lengths.push(store.queue_length());
                assert_eq!(store.is_running(), attempts < 3);
            }
        }
    }
    assert_eq!(attempts, 3);
    assert_eq!(lengths, vec![1, 2, 2]);
    assert!(!store.is_running());
    assert_eq!(store.queue_length(), 2);
}

#[test]
fn no_fourth_arrival_is_attempted() {
    let cfg = settings_with(0, 2);
    let mut store = Store::new(&cfg);
    let actions = play(&cfg, &mut store, 100);
    let sleep = SpawnerAction::Sleep(0);
    let publish = SpawnerAction::Publish(Event::SpawnCustomer);
    assert_eq!(
        actions,
        vec![sleep, publish, sleep, publish, sleep, publish, SpawnerAction::Stop]
    );
}

#[test]
fn stopped_spawning_publishes_no_more_arrivals() {
    let cfg = settings_with(0, 5);
    let mut store = Store::new(&cfg);
    let before = play(&cfg, &mut store, 4);
    assert_eq!(store.queue_length(), 2);
    assert!(before.contains(&SpawnerAction::Publish(Event::SpawnCustomer)));

    store.dispatch(Event::StopCustomerSpawning);
    assert!(!store.is_spawning_enabled());
    let after = play(&cfg, &mut store, 50);
    assert_eq!(after, vec![SpawnerAction::Sleep(1_000_000_000); 50]);
    assert_eq!(store.queue_length(), 2);
    assert!(!store.is_spawning_enabled());
    assert!(store.is_running());
}

#[test]
fn quit_ends_the_spawner_without_a_further_arrival() {
    let cfg = settings_with(3, 5);
    let mut store = Store::new(&cfg);
    let (phase, action) = spawner_step(SpawnerPhase::Idle, true, true, &cfg);
    assert_eq!(action, SpawnerAction::Sleep(3_000_000_000));
    assert!(store.dispatch(Event::Quit));
    let (_, action) = spawner_step(phase, store.is_running(), store.is_spawning_enabled(), &cfg);
    assert_eq!(action, SpawnerAction::Stop);
    assert_eq!(store.queue_length(), 0);
}
