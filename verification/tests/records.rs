use coffee_shop::customer::{Customer, DRINK_IDS};
use coffee_shop::player::{Player, LEVELS, SERVED_LIMIT};

#[test]
fn new_customer_wants_drink_zero() {
    let customer = Customer::new();
    assert_eq!(customer.desired_drink(), 0);
}

#[test]
fn desired_drink_is_stored() {
    let mut customer = Customer::new();
    customer.set_desired_drink(7);
    assert_eq!(customer.desired_drink(), 7);
    customer.set_desired_drink(15);
    assert_eq!(customer.desired_drink(), 15);
    customer.set_desired_drink(0);
    assert_eq!(customer.desired_drink(), 0);
}

#[test]
fn desired_drink_keeps_the_low_four_bits() {
    let mut customer = Customer::new();
    customer.set_desired_drink(16);
    assert_eq!(customer.desired_drink(), 0);
    customer.set_desired_drink(19);
    assert_eq!(customer.desired_drink(), 3);
    customer.set_desired_drink(255);
    assert_eq!(customer.desired_drink(), 15);
}

#[test]
fn desired_drink_is_always_in_range() {
    let mut customer = Customer::new();
    for id in 0..=255u8 {
        customer.set_desired_drink(id);
        assert!(customer.desired_drink() < DRINK_IDS);
        assert_eq!(customer.desired_drink(), id % 16);
    }
}

#[test]
fn copied_customer_keeps_its_drink() {
    let mut customer = Customer::new();
    customer.set_desired_drink(9);
    let copy = customer;
    assert_eq!(copy.desired_drink(), 9);
}

#[test]
fn new_player_starts_at_level_zero() {
    let player = Player::new();
    assert_eq!(player.level(), 0);
    assert!(player.level() < LEVELS);
}

#[test]
fn new_player_has_served_nobody() {
    let player = Player::new();
    assert_eq!(player.customers_served(), 0);
    assert!(player.customers_served() < SERVED_LIMIT);
}
