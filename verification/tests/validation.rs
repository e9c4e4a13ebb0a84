use contact_directory::validation::{NO_DOT_IN_DOMAIN, NO_SEPARATOR};
use contact_directory::{
    check_email_available, judge_email_syntax, validate_email_syntax, ContactStore, EmailTaken,
    InvalidEmail,
};

fn invalid(reason: &str) -> Result<(), InvalidEmail> {
    Err(InvalidEmail { reason: reason.to_string() })
}

#[test]
fn plain_addresses_are_accepted() {
    assert_eq!(validate_email_syntax("ada@example.org"), Ok(()));
    assert_eq!(validate_email_syntax("x@x.com"), Ok(()));
    assert_eq!(validate_email_syntax("first.last+tag@mail.example.co.uk"), Ok(()));
}

#[test]
fn address_without_separator_is_refused() {
    assert_eq!(validate_email_syntax("ada.example.org"), invalid("Missing separator character '@'."));
    assert_eq!(validate_email_syntax(""), invalid("Missing separator character '@'."));
}

#[test]
fn address_without_dot_in_domain_is_refused() {
    assert_eq!(validate_email_syntax("ada@localhost"), invalid("The domain has no '.'."));
    assert_eq!(validate_email_syntax("a.b@c"), invalid("The domain has no '.'."));
}

#[test]
fn address_with_two_separators_is_refused() {
    assert_eq!(validate_email_syntax("a@b@example.org"), invalid("Invalid character."));
}

#[test]
fn address_with_a_display_name_is_refused() {
    assert_eq!(
        validate_email_syntax("Ada <ada@example.org>"),
        invalid("Display names are not supported.")
    );
    assert_eq!(validate_email_syntax("<ada@example.org>"), invalid("Invalid character."));
}

#[test]
fn quoted_local_part_may_hold_a_separator() {
    assert_eq!(validate_email_syntax("\"a@b\"@example.org"), Ok(()));
}

#[test]
fn address_with_empty_parts_is_refused() {
    assert_eq!(validate_email_syntax("@example.org"), invalid("Local part is empty."));
    assert_eq!(validate_email_syntax("ada@"), invalid("Domain is empty."));
    assert_eq!(validate_email_syntax("ada@example..org"), invalid("A sub-domain is empty."));
}

#[test]
fn judge_hands_on_the_parsers_reason() {
    assert_eq!(
        judge_email_syntax("ada@example.org", Some("Because.".to_string())),
        invalid("Because.")
    );
    assert_eq!(judge_email_syntax("nonsense", Some(String::new())), invalid(""));
}

#[test]
fn judge_asks_for_a_separator() {
    assert_eq!(judge_email_syntax("ada.example.org", None), invalid("The address has no '@'."));
    assert_eq!(judge_email_syntax("", None), invalid(NO_SEPARATOR));
    assert_eq!(NO_SEPARATOR, "The address has no '@'.");
}

#[test]
fn judge_asks_for_a_dot_behind_the_last_separator() {
    assert_eq!(judge_email_syntax("ada@example", None), invalid("The domain has no '.'."));
    assert_eq!(judge_email_syntax("a.b@c.d@e", None), invalid(NO_DOT_IN_DOMAIN));
    assert_eq!(judge_email_syntax("ada@", None), invalid(NO_DOT_IN_DOMAIN));
    assert_eq!(NO_DOT_IN_DOMAIN, "The domain has no '.'.");
}

#[test]
fn judge_accepts_what_has_both() {
    assert_eq!(judge_email_syntax("ada@example.org", None), Ok(()));
    assert_eq!(judge_email_syntax("@.", None), Ok(()));
    assert_eq!(judge_email_syntax("a@b@c.d", None), Ok(()));
}

#[test]
fn free_email_is_available() {
    let mut store = ContactStore::new();
    store.add("Ada".to_string(), "ada@x.com".to_string()).unwrap();
    assert_eq!(check_email_available(&store, "bob@x.com", None), Ok(()));
    assert_eq!(check_email_available(&store, "bob@x.com", Some(1)), Ok(()));
}

#[test]
fn held_email_is_taken_but_for_its_holder() {
    let mut store = ContactStore::new();
    store.add("Ada".to_string(), "ada@x.com".to_string()).unwrap();
    store.add("Bob".to_string(), "bob@x.com".to_string()).unwrap();
    assert_eq!(check_email_available(&store, "ada@x.com", None), Err(EmailTaken));
    assert_eq!(check_email_available(&store, "ada@x.com", Some(2)), Err(EmailTaken));
    assert_eq!(check_email_available(&store, "ada@x.com", Some(1)), Ok(()));
}
