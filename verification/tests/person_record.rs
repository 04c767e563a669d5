use calculator::person::ADULT_AGE;
use calculator::text::decimal_text;
use calculator::Person;

#[test]
fn new_person_has_no_email() {
    let person = Person::new("Alice".to_string(), 30);
    assert_eq!(person.name, "Alice");
    assert_eq!(person.age, 30);
    assert_eq!(person.email, None);
}

#[test]
fn with_email_sets_and_replaces_the_address() {
    let person = Person::new("Alice".to_string(), 30).with_email("alice@example.com".to_string());
    assert_eq!(person.name, "Alice");
    assert_eq!(person.age, 30);
    assert_eq!(person.email.as_deref(), Some("alice@example.com"));
    let moved = person.with_email("a@example.org".to_string());
    assert_eq!(moved.email.as_deref(), Some("a@example.org"));
}

#[test]
fn adulthood_starts_at_eighteen() {
    assert_eq!(ADULT_AGE, 18);
    assert!(!Person::new("A".to_string(), 0).is_adult());
    assert!(!Person::new("A".to_string(), 17).is_adult());
    assert!(Person::new("A".to_string(), 18).is_adult());
    assert!(Person::new("A".to_string(), 30).is_adult());
    assert!(Person::new("A".to_string(), u32::MAX).is_adult());
}

#[test]
fn person_is_written_with_and_without_email() {
    let person = Person::new("Alice".to_string(), 30);
    assert_eq!(person.to_text(), "Alice (30)");
    let person = person.with_email("alice@example.com".to_string());
    assert_eq!(person.to_text(), "Alice (30, alice@example.com)");
    assert_eq!(Person::new(String::new(), 0).to_text(), " (0)");
}

#[test]
fn decimal_text_agrees_with_the_standard_rendering() {
    for n in [0u32, 1, 9, 10, 11, 99, 100, 101, 1_000, 65_535, 1_000_000_007, u32::MAX - 1, u32::MAX]
    {
        assert_eq!(decimal_text(n), n.to_string());
    }
    assert_eq!(decimal_text(4_294_967_295), "4294967295");
    assert_eq!(decimal_text(120), "120");
}
