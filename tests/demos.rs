use hashchain::callbacks::{call_with_callback, call_with_closure, make_multiplier};
use hashchain::decimal::push_decimal;
use std::cell::Cell;
use hashchain::generics::{find_largest, max, swap_values, Point};
use hashchain::numbers::{
    double_if_positive, filter_odds_in_place, get_odds, get_odds_loop, move_position,
    process_positive_numbers, rayon_positive_numbers, sum,
};
use hashchain::profiles::{get_email, User};
use hashchain::services::{run, sample, HealthCheck, Service};
use hashchain::shapes::Rectangle;
use hashchain::status::{Level, Player, _Status, _create_status};

#[test]
fn decimal_text() {
    let mut s = String::from("n=");
    push_decimal(&mut s, 0);
    assert_eq!(s, "n=0");
    let mut s = String::new();
    push_decimal(&mut s, 1_700_000_000);
    assert_eq!(s, "1700000000");
    let mut s = String::new();
    push_decimal(&mut s, u64::MAX);
    assert_eq!(s, u64::MAX.to_string());
}

#[test]
fn sums_and_moves() {
    assert_eq!(sum(5, 10), 15);
    assert_eq!(move_position(10, 20, 5), (15, 25));
}

#[test]
fn odd_numbers() {
    let numbers = vec![1, 2, 3, 4, 5, 6, 7, 8, 9, 10];
    assert_eq!(get_odds(&numbers), vec![1, 3, 5, 7, 9]);
    assert_eq!(get_odds_loop(&numbers), vec![1, 3, 5, 7, 9]);
    let mut in_place = numbers.clone();
    filter_odds_in_place(&mut in_place);
    assert_eq!(in_place, vec![1, 3, 5, 7, 9]);
    assert_eq!(get_odds(&[-3, -2, 0]), vec![-3]);
    assert_eq!(get_odds(&[]), Vec::<i32>::new());
}

#[test]
fn positive_numbers_doubled() {
    let numbers = vec![1, -2, 3, -4, 5, 6, -7, 8, 9, -10];
    let expected = vec![2, 6, 10, 12, 16, 18];
    assert_eq!(process_positive_numbers(numbers.clone()), expected);
    assert_eq!(rayon_positive_numbers(numbers), expected);
    assert_eq!(double_if_positive(0), None);
    assert_eq!(double_if_positive(21), Some(42));
}

#[test]
fn rectangles() {
    let mut rect = Rectangle::new(10, 20);
    assert_eq!(rect.area(), 200);
    assert!(!rect.is_square());
    rect.resize(15, 15);
    assert_eq!((rect.width, rect.height), (15, 15));
    assert!(rect.is_square());
}

#[test]
fn generic_helpers() {
    let p = Point::new(3, 4);
    assert_eq!((p.x, p.y), (3, 4));
    assert_eq!(swap_values(5, 10), (10, 5));
    assert_eq!(max(3, 7), 7);
    assert_eq!(max(7, 7), 7);
    assert_eq!(*find_largest(&[3, 7, 2, 9, 5]), 9);
    assert_eq!(*find_largest(&[-4]), -4);
}

#[test]
fn health_check_service() {
    let mut service = HealthCheck { is_online: false };
    let (on, off) = sample(&mut service);
    assert_eq!(on, "HealthCheck is online");
    assert_eq!(off, "HealthCheck is offline");
    assert!(!service.is_online);
    service.activate();
    assert_eq!(service.status(), "HealthCheck is online");
    assert_eq!(run(), ("HealthCheck is online".to_string(), "HealthCheck is offline".to_string()));
}

#[test]
fn statuses_and_players() {
    assert_eq!(_create_status("Rust".to_string())._get_info(), "Success");
    assert_eq!(_create_status(String::new())._get_info(), "Title is empty");
    assert!(matches!(_create_status(String::new()), _Status::Failed(_)));
    let mut player = Player::new("Player 001".to_string(), Level::High, true);
    player.change(Level::Medium, false);
    assert_eq!(player.level, Level::Medium);
    assert!(!player.is_active);
    assert_eq!(player.name, "Player 001");
}

#[test]
fn profiles() {
    assert_eq!(get_email(1), Some("user@example.com".to_string()));
    assert_eq!(get_email(2), None);
    let user = User::new(1, "Baran".to_string(), Some("baran@example.com".to_string()));
    assert_eq!(user.info(), "1 - Baran (baran@example.com)");
    let user = User::new(42, "Ali".to_string(), None);
    assert_eq!(user.info(), "42 - Ali");
}

#[test]
fn closures_are_called_with_fixed_values() {
    let seen = Cell::new(0);
    call_with_closure(|x| seen.set(x));
    assert_eq!(seen.get(), 42);
    call_with_callback(|x| seen.set(x));
    assert_eq!(seen.get(), 100);
    let triple = make_multiplier(3);
    assert_eq!(triple(5), 15);
    assert_eq!(make_multiplier(-2)(7), -14);
}
