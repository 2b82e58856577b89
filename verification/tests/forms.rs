use kiwiscript::forms::{FieldValue, FormField};
use kiwiscript::location::Location;

#[test]
fn new_field_holds_value_without_error() {
    let field = FormField::new(String::from("ana@example.com"));
    assert_eq!(field.val(), "ana@example.com");
    assert!(!field.has_error());
    assert_eq!(field.err(), None);
}

#[test]
fn new_field_of_empty_text() {
    let field = FormField::new(String::new());
    assert_eq!(field.val(), "");
    assert!(!field.has_error());
}

#[test]
fn update_replaces_value() {
    let mut field = FormField::new(String::from("a"));
    field.update(String::from("ab"));
    assert_eq!(field.val(), "ab");
    field.update(String::new());
    assert_eq!(field.val(), "");
}

#[test]
fn update_keeps_error() {
    let mut field = FormField::new(String::from("a"));
    field.set_error(String::from("too short"));
    field.update(String::from("abc"));
    assert_eq!(field.val(), "abc");
    assert!(field.has_error());
    assert_eq!(field.err(), Some(&String::from("too short")));
}

#[test]
fn set_error_attaches_message_and_keeps_value() {
    let mut field = FormField::new(String::from("value"));
    field.set_error(String::from("required"));
    assert!(field.has_error());
    assert_eq!(field.err(), Some(&String::from("required")));
    assert_eq!(field.val(), "value");
}

#[test]
fn set_error_replaces_earlier_message() {
    let mut field = FormField::new(String::from("value"));
    field.set_error(String::from("first"));
    field.set_error(String::from("second"));
    assert_eq!(field.err(), Some(&String::from("second")));
}

#[test]
fn set_error_accepts_empty_message() {
    let mut field = FormField::new(String::from("value"));
    field.set_error(String::new());
    assert!(field.has_error());
    assert_eq!(field.err(), Some(&String::new()));
}

#[test]
fn clear_error_removes_message_and_keeps_value() {
    let mut field = FormField::new(String::from("value"));
    field.set_error(String::from("required"));
    field.clear_error();
    assert!(!field.has_error());
    assert_eq!(field.err(), None);
    assert_eq!(field.val(), "value");
}

#[test]
fn clear_error_without_error_changes_nothing() {
    let mut field = FormField::new(String::from("value"));
    field.clear_error();
    assert!(!field.has_error());
    assert_eq!(field.err(), None);
    assert_eq!(field.val(), "value");
}

#[test]
fn location_field_shows_code() {
    let mut field = FormField::new(Location::NewZealand);
    assert_eq!(field.val(), "NZL");
    field.update(Location::Other);
    assert_eq!(field.val(), "OTH");
    field.update(Location::NorthAmerica);
    assert_eq!(field.val(), "NAM");
}

#[test]
fn cloned_field_has_same_value_and_error() {
    let mut field = FormField::new(Location::Europe);
    field.set_error(String::from("not served"));
    let copy = field.clone();
    assert_eq!(copy.val(), "EUR");
    assert_eq!(copy.err(), Some(&String::from("not served")));
    field.clear_error();
    field.update(Location::Australia);
    assert_eq!(copy.val(), "EUR");
    assert!(copy.has_error());
}

#[test]
fn text_of_string_is_the_string() {
    assert_eq!(String::from("Kia ora").to_text(), "Kia ora");
    assert_eq!(String::new().to_text(), "");
}

#[test]
fn text_of_location_is_its_code() {
    assert_eq!(Location::NewZealand.to_text(), "NZL");
    assert_eq!(Location::Australia.to_text(), "AUS");
    assert_eq!(Location::NorthAmerica.to_text(), "NAM");
    assert_eq!(Location::Europe.to_text(), "EUR");
    assert_eq!(Location::Other.to_text(), "OTH");
}
