//! The contact service: the five things a user can do with the directory.
//!
//! Each operation validates what it is given, then reads or changes the
//! store. A refusal hands the submitted values back, so that a form can be
//! shown again as the user left it. The service takes `&mut self` to change
//! anything, so looking an email up and writing the contact cannot be parted
//! by another writer.

use vstd::prelude::*;
use crate::contact::{views, Contact, ContactView};
use crate::directory::Directory;
use crate::export::{export_all, export_lines, Export};
use crate::store::{ContactStore, NotFound, StoreError};
use crate::validation::{
    check_email_available, judge_email_syntax, parse_address, parser_verdict, syntax_fault,
    text_view,
};

verus! {

/// The message of a refusal for an email that another contact has.
pub const EMAIL_TAKEN_MESSAGE: &'static str = "This email is already occupied";

/// A create request was refused: why, and what had been submitted.
#[derive(Debug, PartialEq, Eq)]
pub struct CreateRejected {
    pub message: String,
    pub submitted_name: String,
    pub submitted_email: String,
}

/// An update request was refused: for which contact, why, and what had been
/// submitted.
#[derive(Debug, PartialEq, Eq)]
pub struct EditRejected {
    pub id: u32,
    pub message: String,
    pub submitted_name: String,
    pub submitted_email: String,
}

/// Why no contact was created.
#[derive(Debug, PartialEq, Eq)]
pub enum CreateError {
    /// The email is not well formed.
    InvalidEmail(CreateRejected),
    /// A contact already has the email.
    EmailTaken(CreateRejected),
    /// The store could not add the contact.
    Store(StoreError),
}

/// Why no contact was updated.
#[derive(Debug, PartialEq, Eq)]
pub enum UpdateError {
    /// The email is not well formed.
    InvalidEmail(EditRejected),
    /// Another contact already has the email.
    EmailTaken(EditRejected),
    /// No contact has the id.
    NotFound(NotFound),
}

impl CreateRejected {
    /// The refusal carries this message and hands back exactly what was
    /// submitted.
    pub open spec fn carries(self, message: Seq<char>, name: Seq<char>, email: Seq<char>) -> bool {
        &&& self.message@ == message
        &&& self.submitted_name@ == name
        &&& self.submitted_email@ == email
    }

    fn new(message: String, name: &str, email: &str) -> (rejected: CreateRejected)
        ensures
            rejected.carries(message@, name@, email@),
    {
        CreateRejected { message, submitted_name: name.to_owned(), submitted_email: email.to_owned() }
    }
}

impl EditRejected {
    /// The refusal names this contact, carries this message and hands back
    /// exactly what was submitted.
    pub open spec fn carries(
        self,
        id: nat,
        message: Seq<char>,
        name: Seq<char>,
        email: Seq<char>,
    ) -> bool {
        &&& self.id == id
        &&& self.message@ == message
        &&& self.submitted_name@ == name
        &&& self.submitted_email@ == email
    }

    fn new(id: u32, message: String, name: &str, email: &str) -> (rejected: EditRejected)
        ensures
            rejected.carries(id as nat, message@, name@, email@),
    {
        EditRejected {
            id,
            message,
            submitted_name: name.to_owned(),
            submitted_email: email.to_owned(),
        }
    }
}

/// What creating a contact owes, given the parser's verdict on the email:
/// which outcome comes on which input, what it carries, and what becomes of
/// the directory. The email is validated first, then looked up; only then
/// is the store asked to add.
pub open spec fn creation(
    before: Directory,
    name: Seq<char>,
    email: Seq<char>,
    verdict: Option<Seq<char>>,
    after: Directory,
    outcome: Result<Contact, CreateError>,
) -> bool {
    match outcome {
        Ok(contact) => {
            &&& syntax_fault(email, verdict) is None
            &&& before.available(email, None)
            &&& before.last_id < u32::MAX
            &&& contact@ == before.next_contact(name, email)
            &&& after == before.add(name, email)
        },
        Err(CreateError::InvalidEmail(rejected)) => {
            &&& syntax_fault(email, verdict) is Some
            &&& rejected.carries(syntax_fault(email, verdict)->0, name, email)
            &&& after == before
        },
        Err(CreateError::EmailTaken(rejected)) => {
            &&& syntax_fault(email, verdict) is None
            &&& !before.available(email, None)
            &&& rejected.carries(EMAIL_TAKEN_MESSAGE@, name, email)
            &&& after == before
        },
        Err(CreateError::Store(error)) => {
            &&& syntax_fault(email, verdict) is None
            &&& before.available(email, None)
            &&& before.last_id == u32::MAX
            &&& error == StoreError::IdsExhausted
            &&& after == before
        },
    }
}

/// What updating a contact owes, given the parser's verdict on the email:
/// which outcome comes on which input, what it carries, and what becomes of
/// the directory. The email is validated first, then looked up; only then
/// is the contact looked for.
pub open spec fn revision(
    before: Directory,
    id: nat,
    name: Seq<char>,
    email: Seq<char>,
    verdict: Option<Seq<char>>,
    after: Directory,
    outcome: Result<Contact, UpdateError>,
) -> bool {
    match outcome {
        Ok(contact) => {
            &&& syntax_fault(email, verdict) is None
            &&& before.available(email, Some(id))
            &&& before.holds(id)
            &&& contact@ == ContactView { id, name, email }
            &&& after == before.edit(id, name, email)
        },
        Err(UpdateError::InvalidEmail(rejected)) => {
            &&& syntax_fault(email, verdict) is Some
            &&& rejected.carries(id, syntax_fault(email, verdict)->0, name, email)
            &&& after == before
        },
        Err(UpdateError::EmailTaken(rejected)) => {
            &&& syntax_fault(email, verdict) is None
            &&& !before.available(email, Some(id))
            &&& rejected.carries(id, EMAIL_TAKEN_MESSAGE@, name, email)
            &&& after == before
        },
        Err(UpdateError::NotFound(missing)) => {
            &&& syntax_fault(email, verdict) is None
            &&& before.available(email, Some(id))
            &&& !before.holds(id)
            &&& missing.id == id
            &&& after == before
        },
    }
}

/// The service. It owns the store that it was given.
pub struct ContactService {
    store: ContactStore,
}

impl View for ContactService {
    type V = Directory;

    closed spec fn view(&self) -> Directory {
        self.store@
    }
}

impl ContactService {
    /// A service over `store`.
    pub fn new(store: ContactStore) -> (service: ContactService)
        ensures
            service@ == store@,
            service@.wf(),
    {
        proof {
            use_type_invariant(&store);
        }
        ContactService { store }
    }

    /// The number of contacts.
    pub fn count(&self) -> (n: usize)
        ensures
            self@.wf(),
            n == self@.contacts.len(),
    {
        self.store.len()
    }

    /// Creates a contact, once the parser's verdict on `email` is known
    /// (`None`: accepted; else its reason).
    pub fn create_with_verdict(
        &mut self,
        name: &str,
        email: &str,
        verdict: Option<String>,
    ) -> (created: Result<Contact, CreateError>)
        ensures
            final(self)@.wf(),
            old(self)@.emails_unique() ==> final(self)@.emails_unique(),
            creation(old(self)@, name@, email@, text_view(verdict), final(self)@, created),
    {
        proof {
            use_type_invariant(&self.store);
        }
        if let Err(invalid) = judge_email_syntax(email, verdict) {
            return Err(CreateError::InvalidEmail(CreateRejected::new(invalid.reason, name, email)));
        }
        if check_email_available(&self.store, email, None).is_err() {
            let message = EMAIL_TAKEN_MESSAGE.to_owned();
            return Err(CreateError::EmailTaken(CreateRejected::new(message, name, email)));
        }
        match self.store.add(name.to_owned(), email.to_owned()) {
            Ok(id) => {
                proof {
                    old(self)@.lemma_add_keeps_emails_unique(name@, email@);
                }
                Ok(Contact { id, name: name.to_owned(), email: email.to_owned() })
            },
            Err(error) => Err(CreateError::Store(error)),
        }
    }

    /// Creates a contact: validates the syntax of `email`, makes sure that
    /// no contact has it, then adds the contact to the store under a fresh
    /// id. A refusal hands `name` and `email` back unchanged.
    pub fn create(&mut self, name: &str, email: &str) -> (created: Result<Contact, CreateError>)
        ensures
            final(self)@.wf(),
            old(self)@.emails_unique() ==> final(self)@.emails_unique(),
            creation(old(self)@, name@, email@, parser_verdict(email@), final(self)@, created),
    {
        let verdict = parse_address(email);
        self.create_with_verdict(name, email, verdict)
    }

    /// The contact with this id.
    pub fn read(&self, id: u32) -> (found: Result<Contact, NotFound>)
        ensures
            self@.wf(),
            match found {
                Ok(contact) => self@.get(id as nat) == Some(contact@),
                Err(missing) => self@.get(id as nat) is None && missing.id == id,
            },
    {
        match self.store.get(id) {
            Some(contact) => Ok(contact),
            None => Err(NotFound { id }),
        }
    }

    /// Updates a contact, once the parser's verdict on `email` is known
    /// (`None`: accepted; else its reason).
    pub fn update_with_verdict(
        &mut self,
        id: u32,
        name: &str,
        email: &str,
        verdict: Option<String>,
    ) -> (updated: Result<Contact, UpdateError>)
        ensures
            final(self)@.wf(),
            old(self)@.emails_unique() ==> final(self)@.emails_unique(),
            revision(
                old(self)@,
                id as nat,
                name@,
                email@,
                text_view(verdict),
                final(self)@,
                updated,
            ),
    {
        proof {
            use_type_invariant(&self.store);
        }
        if let Err(invalid) = judge_email_syntax(email, verdict) {
            return Err(UpdateError::InvalidEmail(EditRejected::new(id, invalid.reason, name, email)));
        }
        if check_email_available(&self.store, email, Some(id)).is_err() {
            let message = EMAIL_TAKEN_MESSAGE.to_owned();
            return Err(UpdateError::EmailTaken(EditRejected::new(id, message, name, email)));
        }
        match self.store.edit(id, name, email) {
            Ok(_) => {
                proof {
                    old(self)@.lemma_edit_keeps_emails_unique(id as nat, name@, email@);
                }
                Ok(Contact { id, name: name.to_owned(), email: email.to_owned() })
            },
            Err(missing) => Err(UpdateError::NotFound(missing)),
        }
    }

    /// Updates a contact: validates the syntax of `email`, makes sure that
    /// no other contact has it, then gives the contact its new name and
    /// email. The contact may keep its own email. A refusal hands `id`,
    /// `name` and `email` back unchanged.
    pub fn update(&mut self, id: u32, name: &str, email: &str) -> (updated: Result<
        Contact,
        UpdateError,
    >)
        ensures
            final(self)@.wf(),
            old(self)@.emails_unique() ==> final(self)@.emails_unique(),
            revision(
                old(self)@,
                id as nat,
                name@,
                email@,
                parser_verdict(email@),
                final(self)@,
                updated,
            ),
    {
        let verdict = parse_address(email);
        self.update_with_verdict(id, name, email, verdict)
    }

    /// Deletes the contact with this id. Where there is none, nothing
    /// changes and nothing is reported: deleting twice is deleting once.
    pub fn delete(&mut self, id: u32)
        ensures
            final(self)@.wf(),
            old(self)@.emails_unique() ==> final(self)@.emails_unique(),
            final(self)@ == old(self)@.remove(id as nat),
            !old(self)@.holds(id as nat) ==> final(self)@ == old(self)@,
            !final(self)@.holds(id as nat),
    {
        proof {
            use_type_invariant(&self.store);
            old(self)@.lemma_remove(id as nat);
        }
        let _ = self.store.remove(id);
    }

    /// The contacts to show: with a query, those whose name contains it,
    /// ASCII case ignored; without one, all of them. Store order either way.
    pub fn list(&self, query: Option<&str>) -> (shown: Vec<Contact>)
        ensures
            self@.wf(),
            views(shown@) == match query {
                Some(needle) => self@.search_by_name(needle@),
                None => self@.contacts,
            },
    {
        match query {
            Some(needle) => self.store.search_by_name(needle),
            None => self.store.get_all(),
        }
    }

    /// Takes an export of the directory: one line per contact, in store
    /// order.
    pub fn export(&self) -> (export: Export)
        ensures
            self@.wf(),
            export.pending() == export_lines(self@.contacts),
    {
        export_all(&self.store)
    }
}

} // verus!
