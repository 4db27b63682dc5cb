use coffee_shop::config::{default_drinks, Config, Menu};
use coffee_shop::events::Event;
use coffee_shop::hoverable::Hoverable;
use coffee_shop::input::POLL_NANOS;
use coffee_shop::render::TICK_NANOS;
use coffee_shop::store::{Store, BUTTONS_REFRESH_NANOS, RECEIVE_TIMEOUT_NANOS};

fn settings_with_room(max_line_size: usize) -> Config {
    Config {
        customer_arrival_wait: 0,
        max_line_size,
        right_side_menu_padding: 1,
        drinks: default_drinks(),
    }
}

#[test]
fn game_starts_running_with_an_empty_line() {
    let store = Store::new(&settings_with_room(10));
    assert_eq!(store.queue_length(), 0);
    assert_eq!(store.player_level(), 0);
    assert!(store.is_running());
    assert!(store.is_spawning_enabled());
}

#[test]
fn line_grows_by_one_customer_at_a_time() {
    let mut store = Store::new(&settings_with_room(3));
    assert!(store.enqueue_customer());
    assert_eq!(store.queue_length(), 1);
    assert!(store.enqueue_customer());
    assert_eq!(store.queue_length(), 2);
    assert!(store.enqueue_customer());
    assert_eq!(store.queue_length(), 3);
}

#[test]
fn full_line_turns_customers_away_and_stays_as_it_is() {
    let mut store = Store::new(&settings_with_room(2));
    assert!(store.enqueue_customer());
    assert!(store.enqueue_customer());
    assert!(!store.enqueue_customer());
    assert_eq!(store.queue_length(), 2);
    assert!(!store.enqueue_customer());
    assert_eq!(store.queue_length(), 2);
    assert!(store.is_running());
    assert!(store.is_spawning_enabled());
}

#[test]
fn line_never_exceeds_its_limit() {
    for max in 0..6usize {
        let mut store = Store::new(&settings_with_room(max));
        for attempt in 0..10usize {
            let admitted = store.enqueue_customer();
            assert_eq!(admitted, attempt < max);
            assert!(store.queue_length() <= max);
            assert_eq!(store.queue_length(), (attempt + 1).min(max));
        }
    }
}

#[test]
fn line_without_room_admits_nobody() {
    let mut store = Store::new(&settings_with_room(0));
    assert!(!store.enqueue_customer());
    assert_eq!(store.queue_length(), 0);
}

#[test]
fn flags_can_be_set_and_read() {
    let mut store = Store::new(&settings_with_room(4));
    store.set_running(false);
    assert!(!store.is_running());
    assert!(store.is_spawning_enabled());
    store.set_running(true);
    assert!(store.is_running());
    store.set_spawning_enabled(false);
    assert!(!store.is_spawning_enabled());
    assert!(store.is_running());
    store.set_spawning_enabled(true);
    assert!(store.is_spawning_enabled());
    assert_eq!(store.queue_length(), 0);
}

#[test]
fn quit_stops_the_game_and_wakes_the_sleepers() {
    let mut store = Store::new(&settings_with_room(4));
    assert!(store.dispatch(Event::Quit));
    assert!(!store.is_running());
    assert!(store.is_spawning_enabled());
    assert_eq!(store.queue_length(), 0);
}

#[test]
fn stop_spawning_only_lowers_the_spawning_flag() {
    let mut store = Store::new(&settings_with_room(4));
    assert!(!store.dispatch(Event::StopCustomerSpawning));
    assert!(!store.is_spawning_enabled());
    assert!(store.is_running());
    assert_eq!(store.queue_length(), 0);
}

#[test]
fn spawn_admits_a_customer_while_there_is_room() {
    let mut store = Store::new(&settings_with_room(1));
    assert!(!store.dispatch(Event::SpawnCustomer));
    assert_eq!(store.queue_length(), 1);
    assert!(store.is_running());
}

#[test]
fn spawn_at_a_full_line_ends_the_game() {
    let mut store = Store::new(&settings_with_room(1));
    store.dispatch(Event::SpawnCustomer);
    assert!(!store.dispatch(Event::SpawnCustomer));
    assert_eq!(store.queue_length(), 1);
    assert!(!store.is_running());
    assert!(store.is_spawning_enabled());
}

#[test]
fn spawning_stays_disabled_whatever_follows() {
    let mut store = Store::new(&settings_with_room(3));
    store.dispatch(Event::StopCustomerSpawning);
    for event in [
        Event::SpawnCustomer,
        Event::StopCustomerSpawning,
        Event::SpawnCustomer,
        Event::SpawnCustomer,
        Event::SpawnCustomer,
        Event::Quit,
        Event::SpawnCustomer,
    ] {
        store.dispatch(event);
        assert!(!store.is_spawning_enabled());
        assert!(store.queue_length() <= 3);
    }
}

#[test]
fn stopped_game_stays_stopped_whatever_follows() {
    let mut store = Store::new(&settings_with_room(3));
    store.dispatch(Event::Quit);
    for event in [Event::SpawnCustomer, Event::StopCustomerSpawning, Event::Quit] {
        store.dispatch(event);
        assert!(!store.is_running());
    }
}

#[test]
fn game_starts_with_one_empty_row_of_buttons() {
    let store = Store::new(&settings_with_room(10));
    assert_eq!(store.buttons(), &vec![Vec::<Hoverable>::new()]);
}

#[test]
fn buttons_offer_the_drinks_of_the_level() {
    let cfg = settings_with_room(10);
    let mut store = Store::new(&cfg);
    store.refresh_buttons(&cfg);
    assert_eq!(
        store.buttons(),
        &vec![vec![Hoverable { text: "Coffee".to_string(), ..Hoverable::default() }]]
    );
    assert_eq!(store.queue_length(), 0);
    assert!(store.is_running());
    assert!(store.is_spawning_enabled());
}

#[test]
fn level_without_menu_has_an_empty_row_of_buttons() {
    let mut cfg = settings_with_room(10);
    cfg.drinks = vec![Menu { level: "1".to_string(), items: default_drinks().remove(0).items }];
    let mut store = Store::new(&settings_with_room(10));
    store.refresh_buttons(&settings_with_room(10));
    assert_eq!(store.buttons()[0].len(), 1);
    store.refresh_buttons(&cfg);
    assert_eq!(store.buttons(), &vec![Vec::<Hoverable>::new()]);
}

#[test]
fn waiting_times_of_the_loops() {
    assert_eq!(RECEIVE_TIMEOUT_NANOS, 100_000_000);
    assert_eq!(BUTTONS_REFRESH_NANOS, 1_000_000_000);
    assert_eq!(TICK_NANOS, 100_000_000);
    assert_eq!(POLL_NANOS, 10_000_000);
}
