use contact_directory::service::EMAIL_TAKEN_MESSAGE;
use contact_directory::{
    Contact, ContactService, ContactStore, CreateError, CreateRejected, EditRejected, NotFound,
    StoreError, UpdateError,
};

fn fresh() -> ContactService {
    ContactService::new(ContactStore::new())
}

fn contact(id: u32, name: &str, email: &str) -> Contact {
    Contact { id, name: name.to_string(), email: email.to_string() }
}

#[test]
fn round_trip_create_read_update_delete() {
    let mut service = fresh();
    let created = service.create("Ada Lovelace", "ada@example.org").unwrap();
    assert_eq!(created.id, 1);
    assert_eq!(service.read(1), Ok(contact(1, "Ada Lovelace", "ada@example.org")));

    let updated = service.update(1, "Ada L.", "ada@example.org");
    assert_eq!(updated, Ok(contact(1, "Ada L.", "ada@example.org")));
    assert_eq!(service.read(1), Ok(contact(1, "Ada L.", "ada@example.org")));

    service.delete(1);
    assert_eq!(service.read(1), Err(NotFound { id: 1 }));
}

#[test]
fn second_create_with_same_email_is_refused_as_taken() {
    let mut service = fresh();
    assert!(service.create("A", "x@x.com").is_ok());
    let second = service.create("B", "x@x.com");
    assert_eq!(
        second,
        Err(CreateError::EmailTaken(CreateRejected {
            message: "This email is already occupied".to_string(),
            submitted_name: "B".to_string(),
            submitted_email: "x@x.com".to_string(),
        }))
    );
    assert_eq!(EMAIL_TAKEN_MESSAGE, "This email is already occupied");
}

#[test]
fn created_contact_is_read_back() {
    let mut service = fresh();
    service.create("Grace Hopper", "grace@navy.mil").unwrap();
    let created = service.create("Alan Turing", "alan@bletchley.uk").unwrap();
    assert_eq!(created, contact(2, "Alan Turing", "alan@bletchley.uk"));
    assert_eq!(service.read(created.id), Ok(contact(2, "Alan Turing", "alan@bletchley.uk")));
}

#[test]
fn taken_email_leaves_the_count_unchanged() {
    let mut service = fresh();
    service.create("A", "a@x.com").unwrap();
    service.create("B", "b@x.com").unwrap();
    assert_eq!(service.count(), 2);
    assert!(matches!(service.create("C", "a@x.com"), Err(CreateError::EmailTaken(_))));
    assert_eq!(service.count(), 2);
    assert_eq!(
        service.list(None),
        vec![contact(1, "A", "a@x.com"), contact(2, "B", "b@x.com")]
    );
}

#[test]
fn taken_email_is_matched_exactly() {
    let mut service = fresh();
    service.create("A", "a@x.com").unwrap();
    assert!(service.create("B", "A@x.com").is_ok());
    assert_eq!(service.count(), 2);
}

#[test]
fn email_without_separator_is_refused_with_the_parsers_reason() {
    let mut service = fresh();
    let refused = service.create("Ada", "ada.example.org");
    assert_eq!(
        refused,
        Err(CreateError::InvalidEmail(CreateRejected {
            message: "Missing separator character '@'.".to_string(),
            submitted_name: "Ada".to_string(),
            submitted_email: "ada.example.org".to_string(),
        }))
    );
    assert_eq!(service.count(), 0);
}

#[test]
fn email_without_dot_in_domain_is_refused() {
    let mut service = fresh();
    let refused = service.create("Ada", "ada@localhost");
    assert_eq!(
        refused,
        Err(CreateError::InvalidEmail(CreateRejected {
            message: "The domain has no '.'.".to_string(),
            submitted_name: "Ada".to_string(),
            submitted_email: "ada@localhost".to_string(),
        }))
    );
    assert_eq!(service.count(), 0);
    assert_eq!(service.read(1), Err(NotFound { id: 1 }));
}

#[test]
fn email_with_a_dot_before_the_separator_only_is_refused() {
    let mut service = fresh();
    assert!(matches!(service.create("Ada", "ada.lovelace@localhost"), Err(CreateError::InvalidEmail(_))));
    assert_eq!(service.count(), 0);
}

#[test]
fn email_with_empty_local_part_is_refused() {
    let mut service = fresh();
    match service.create("Ada", "@example.org") {
        Err(CreateError::InvalidEmail(rejected)) => {
            assert_eq!(rejected.message, "Local part is empty.");
            assert_eq!(rejected.submitted_name, "Ada");
            assert_eq!(rejected.submitted_email, "@example.org");
        }
        other => panic!("expected a refusal, got {:?}", other),
    }
}

#[test]
fn invalid_email_is_reported_before_a_taken_one() {
    let mut store = ContactStore::new();
    store.add("A".to_string(), "nonsense".to_string()).unwrap();
    let mut service = ContactService::new(store);
    assert!(matches!(service.create("B", "nonsense"), Err(CreateError::InvalidEmail(_))));
    assert_eq!(service.count(), 1);
}

#[test]
fn create_with_verdict_follows_the_verdict() {
    let mut service = fresh();
    let refused =
        service.create_with_verdict("Ada", "ada@example.org", Some("Not today.".to_string()));
    assert_eq!(
        refused,
        Err(CreateError::InvalidEmail(CreateRejected {
            message: "Not today.".to_string(),
            submitted_name: "Ada".to_string(),
            submitted_email: "ada@example.org".to_string(),
        }))
    );
    assert_eq!(service.count(), 0);
    let created = service.create_with_verdict("Ada", "ada@example.org", None);
    assert_eq!(created, Ok(contact(1, "Ada", "ada@example.org")));
}

#[test]
fn create_with_verdict_still_asks_for_separator_and_dot() {
    let mut service = fresh();
    match service.create_with_verdict("Ada", "ada.example.org", None) {
        Err(CreateError::InvalidEmail(rejected)) => {
            assert_eq!(rejected.message, "The address has no '@'.")
        }
        other => panic!("expected a refusal, got {:?}", other),
    }
    match service.create_with_verdict("Ada", "ada@example", None) {
        Err(CreateError::InvalidEmail(rejected)) => {
            assert_eq!(rejected.message, "The domain has no '.'.")
        }
        other => panic!("expected a refusal, got {:?}", other),
    }
    assert_eq!(service.count(), 0);
}

#[test]
fn create_fails_when_ids_are_exhausted() {
    let mut service = ContactService::new(ContactStore::resuming_after(u32::MAX - 1));
    let last = service.create("A", "a@x.com").unwrap();
    assert_eq!(last.id, u32::MAX);
    assert_eq!(service.create("B", "b@x.com"), Err(CreateError::Store(StoreError::IdsExhausted)));
    assert_eq!(service.count(), 1);
}

#[test]
fn update_keeps_own_email() {
    let mut service = fresh();
    service.create("A", "a@x.com").unwrap();
    service.create("B", "b@x.com").unwrap();
    assert_eq!(service.update(2, "Bee", "b@x.com"), Ok(contact(2, "Bee", "b@x.com")));
    assert_eq!(
        service.list(None),
        vec![contact(1, "A", "a@x.com"), contact(2, "Bee", "b@x.com")]
    );
}

#[test]
fn update_changes_name_and_email_in_place() {
    let mut service = fresh();
    service.create("A", "a@x.com").unwrap();
    service.create("B", "b@x.com").unwrap();
    service.create("C", "c@x.com").unwrap();
    assert_eq!(service.update(2, "Bee", "bee@y.org"), Ok(contact(2, "Bee", "bee@y.org")));
    assert_eq!(
        service.list(None),
        vec![contact(1, "A", "a@x.com"), contact(2, "Bee", "bee@y.org"), contact(3, "C", "c@x.com")]
    );
}

#[test]
fn update_to_anothers_email_is_refused_as_taken() {
    let mut service = fresh();
    service.create("A", "a@x.com").unwrap();
    service.create("B", "b@x.com").unwrap();
    assert_eq!(
        service.update(2, "Bee", "a@x.com"),
        Err(UpdateError::EmailTaken(EditRejected {
            id: 2,
            message: "This email is already occupied".to_string(),
            submitted_name: "Bee".to_string(),
            submitted_email: "a@x.com".to_string(),
        }))
    );
    assert_eq!(service.read(2), Ok(contact(2, "B", "b@x.com")));
}

#[test]
fn update_with_invalid_email_is_refused() {
    let mut service = fresh();
    service.create("A", "a@x.com").unwrap();
    assert_eq!(
        service.update(1, "Ay", "a.x.com"),
        Err(UpdateError::InvalidEmail(EditRejected {
            id: 1,
            message: "Missing separator character '@'.".to_string(),
            submitted_name: "Ay".to_string(),
            submitted_email: "a.x.com".to_string(),
        }))
    );
    assert_eq!(service.read(1), Ok(contact(1, "A", "a@x.com")));
}

#[test]
fn update_of_a_missing_contact_is_not_found() {
    let mut service = fresh();
    service.create("A", "a@x.com").unwrap();
    assert_eq!(
        service.update(7, "B", "b@x.com"),
        Err(UpdateError::NotFound(NotFound { id: 7 }))
    );
    assert_eq!(service.list(None), vec![contact(1, "A", "a@x.com")]);
}

#[test]
fn update_validates_before_it_looks_for_the_contact() {
    let mut service = fresh();
    assert!(matches!(service.update(7, "B", "nonsense"), Err(UpdateError::InvalidEmail(_))));
    service.create("A", "a@x.com").unwrap();
    assert!(matches!(service.update(7, "B", "a@x.com"), Err(UpdateError::EmailTaken(_))));
}

#[test]
fn update_with_verdict_follows_the_verdict() {
    let mut service = fresh();
    service.create("A", "a@x.com").unwrap();
    match service.update_with_verdict(1, "Ay", "ay@x.com", Some("No.".to_string())) {
        Err(UpdateError::InvalidEmail(rejected)) => {
            assert_eq!(rejected.id, 1);
            assert_eq!(rejected.message, "No.");
        }
        other => panic!("expected a refusal, got {:?}", other),
    }
    assert_eq!(
        service.update_with_verdict(1, "Ay", "ay@x.com", None),
        Ok(contact(1, "Ay", "ay@x.com"))
    );
}

#[test]
fn delete_of_a_missing_contact_changes_nothing() {
    let mut service = fresh();
    service.create("A", "a@x.com").unwrap();
    service.delete(9);
    assert_eq!(service.list(None), vec![contact(1, "A", "a@x.com")]);
    service.delete(1);
    service.delete(1);
    assert_eq!(service.count(), 0);
}

#[test]
fn ids_are_not_used_again_after_delete() {
    let mut service = fresh();
    service.create("A", "a@x.com").unwrap();
    service.delete(1);
    let next = service.create("A", "a@x.com").unwrap();
    assert_eq!(next.id, 2);
}

#[test]
fn empty_search_lists_all() {
    let mut service = fresh();
    service.create("Ada", "a@x.com").unwrap();
    service.create("Bob", "b@x.com").unwrap();
    service.create("Cy", "c@x.com").unwrap();
    assert_eq!(service.list(Some("")), service.list(None));
    assert_eq!(service.list(None).len(), 3);
}

#[test]
fn search_ignores_case_and_keeps_store_order() {
    let mut service = fresh();
    service.create("Ada Lovelace", "ada@x.com").unwrap();
    service.create("Bob", "bob@x.com").unwrap();
    service.create("Madam Curie", "marie@x.com").unwrap();
    assert_eq!(
        service.list(Some("ADA")),
        vec![contact(1, "Ada Lovelace", "ada@x.com"), contact(3, "Madam Curie", "marie@x.com")]
    );
    assert_eq!(service.list(Some("love")), vec![contact(1, "Ada Lovelace", "ada@x.com")]);
    assert_eq!(service.list(Some("zed")), Vec::<Contact>::new());
    assert_eq!(service.list(Some("ada@")), Vec::<Contact>::new());
}

#[test]
fn list_of_an_empty_directory_is_empty() {
    let service = fresh();
    assert_eq!(service.list(None), Vec::<Contact>::new());
    assert_eq!(service.list(Some("a")), Vec::<Contact>::new());
    assert_eq!(service.count(), 0);
}
