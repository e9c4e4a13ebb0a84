//! The contact record and its mathematical view.

use vstd::prelude::*;

verus! {

/// A contact as plain mathematical values: the form in which contracts speak of it.
pub struct ContactView {
    pub id: nat,
    pub name: Seq<char>,
    pub email: Seq<char>,
}

/// One entry of the directory. The store assigns `id`; `name` and `email` are
/// what the user submitted.
#[derive(Debug, PartialEq, Eq)]
pub struct Contact {
    pub id: u32,
    pub name: String,
    pub email: String,
}

impl View for Contact {
    type V = ContactView;

    open spec fn view(&self) -> ContactView {
        ContactView { id: self.id as nat, name: self.name@, email: self.email@ }
    }
}

impl Clone for Contact {
    fn clone(&self) -> (copy: Contact)
        ensures
            copy@ == self@,
    {
        Contact { id: self.id, name: self.name.clone(), email: self.email.clone() }
    }
}

/// The views of a run of contacts, in the same order.
pub open spec fn views(contacts: Seq<Contact>) -> Seq<ContactView> {
    contacts.map_values(|c: Contact| c@)
}

} // verus!
