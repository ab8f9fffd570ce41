use hashchain::friends::User as Friend;
use hashchain::people::{create_user_from_str, parse_age, AgeError, User};
use std::rc::Rc;

#[test]
fn parses_name_and_age() {
    let user = create_user_from_str("Alice:25").unwrap();
    assert_eq!(user, User::new("Alice".to_string(), 25));
    let parsed: User = "Bob:+7".parse().unwrap();
    assert_eq!(parsed, User::new("Bob".to_string(), 7));
    assert_eq!(create_user_from_str(":0").unwrap(), User::new(String::new(), 0));
}

#[test]
fn rejects_wrong_number_of_colons() {
    let message = "Geçersiz format, 'name:age' bekleniyor".to_string();
    assert_eq!(create_user_from_str("Alice"), Err(message.clone()));
    assert_eq!(create_user_from_str("a:b:c"), Err(message.clone()));
    assert_eq!(create_user_from_str(""), Err(message));
}

#[test]
fn reports_age_errors_as_std_does() {
    for text in ["", "+", "-", "-5", "2x", "999x", "256", "300", "x300"] {
        let ours = parse_age(text);
        let std = text.parse::<u8>();
        match (&ours, &std) {
            (Ok(a), Ok(b)) => assert_eq!(a, b),
            (Err(_), Err(_)) => {}
            _ => panic!("{:?} vs {:?} on {:?}", ours, std, text),
        }
    }
    assert_eq!(parse_age("255"), Ok(255));
    assert_eq!(parse_age("007"), Ok(7));
    assert_eq!(parse_age(""), Err(AgeError::Empty));
    assert_eq!(parse_age("+"), Err(AgeError::InvalidDigit));
    assert_eq!(parse_age("-5"), Err(AgeError::InvalidDigit));
    assert_eq!(parse_age("999x"), Err(AgeError::Overflow));
    assert_eq!(parse_age("2x"), Err(AgeError::InvalidDigit));
    assert_eq!(parse_age("256"), Err(AgeError::Overflow));
}

#[test]
fn age_error_messages_match_std() {
    for text in ["", "x", "256"] {
        let std = text.parse::<u8>().unwrap_err();
        let input = format!("n:{}", text);
        assert_eq!(
            create_user_from_str(&input),
            Err(format!("Yaş parse hatası: {}", std))
        );
    }
}

#[test]
fn default_user() {
    assert_eq!(User::default(), User::new("Default".to_string(), 0));
}

#[test]
fn friends_are_shared_and_listed_in_order() {
    let bob = Rc::new(Friend::new("Bob".to_string(), 25));
    let charlie = Rc::new(Friend::new("Charlie".to_string(), 28));
    let mut alice = Friend::new("Alice".to_string(), 30);
    Friend::add_friend(&mut alice, bob.clone());
    Friend::add_friend(&mut alice, charlie.clone());
    assert_eq!(Friend::list_friends(&alice), vec!["Bob".to_string(), "Charlie".to_string()]);
    let mut dave = Friend::new("Dave".to_string(), 27);
    Friend::add_friend(&mut dave, bob.clone());
    assert_eq!(Friend::list_friends(&dave), vec!["Bob".to_string()]);
    assert_eq!(Rc::strong_count(&bob), 3);
    assert!(Friend::list_friends(&Friend::new("Eve".to_string(), 1)).is_empty());
}
