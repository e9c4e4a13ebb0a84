//! The directory as a mathematical value, and each store operation as a
//! function on it. The executable store and service are specified against
//! this model.

use vstd::prelude::*;
use crate::contact::ContactView;
use crate::text::contains_folded;

verus! {

/// The state of a contact store: its contacts in store order, and the last
/// id it has handed out (0 before the first).
pub struct Directory {
    pub contacts: Seq<ContactView>,
    pub last_id: nat,
}

/// The test that a contact's name contains `needle`, ASCII case ignored.
pub open spec fn name_contains(needle: Seq<char>) -> spec_fn(ContactView) -> bool {
    |c: ContactView| contains_folded(c.name, needle)
}

impl Directory {
    /// The directory before anything was added.
    pub open spec fn empty() -> Directory {
        Directory { contacts: Seq::empty(), last_id: 0 }
    }

    /// Ids run from 1 to `last_id`, strictly ascending in store order, so no
    /// id occurs twice and none that was handed out is handed out again.
    pub open spec fn wf(self) -> bool {
        &&& self.last_id <= u32::MAX
        &&& forall|i: int|
            #![trigger self.contacts[i]]
            0 <= i < self.contacts.len() ==> 1 <= self.contacts[i].id <= self.last_id
        &&& forall|i: int, j: int|
            #![trigger self.contacts[i], self.contacts[j]]
            0 <= i < j < self.contacts.len() ==> self.contacts[i].id < self.contacts[j].id
    }

    /// No email address belongs to two contacts.
    pub open spec fn emails_unique(self) -> bool {
        forall|i: int, j: int|
            #![trigger self.contacts[i], self.contacts[j]]
            0 <= i < j < self.contacts.len() ==> self.contacts[i].email != self.contacts[j].email
    }

    /// Some contact has this id.
    pub open spec fn holds(self, id: nat) -> bool {
        exists|i: int|
            #![trigger self.contacts[i]]
            0 <= i < self.contacts.len() && self.contacts[i].id == id
    }

    /// Where the contact with this id stands, if [`Self::holds`].
    pub open spec fn position(self, id: nat) -> int {
        choose|i: int|
            #![trigger self.contacts[i]]
            0 <= i < self.contacts.len() && self.contacts[i].id == id
    }

    /// The contact with this id.
    pub open spec fn get(self, id: nat) -> Option<ContactView> {
        if self.holds(id) {
            Some(self.contacts[self.position(id)])
        } else {
            None
        }
    }

    /// Some contact has exactly this email.
    pub open spec fn has_email(self, email: Seq<char>) -> bool {
        exists|i: int|
            #![trigger self.contacts[i]]
            0 <= i < self.contacts.len() && self.contacts[i].email == email
    }

    /// Position `i` holds the first contact, in store order, with exactly
    /// this email.
    pub open spec fn first_with_email(self, email: Seq<char>, i: int) -> bool {
        &&& 0 <= i < self.contacts.len()
        &&& self.contacts[i].email == email
        &&& forall|j: int| #![trigger self.contacts[j]] 0 <= j < i ==> self.contacts[j].email != email
    }

    /// The first contact, in store order, with exactly this email.
    pub open spec fn find_by_email(self, email: Seq<char>) -> Option<ContactView> {
        if exists|i: int| self.first_with_email(email, i) {
            Some(self.contacts[choose|i: int| self.first_with_email(email, i)])
        } else {
            None
        }
    }

    /// Whether `email` may be given to a contact: looking it up finds
    /// nobody, or finds the contact named by `excluding`, which may keep
    /// its own address.
    pub open spec fn available(self, email: Seq<char>, excluding: Option<nat>) -> bool {
        match self.find_by_email(email) {
            None => true,
            Some(holder) => excluding == Some(holder.id),
        }
    }

    /// The contacts whose name contains `needle`, ASCII case ignored, in
    /// store order.
    pub open spec fn search_by_name(self, needle: Seq<char>) -> Seq<ContactView> {
        self.contacts.filter(name_contains(needle))
    }

    /// The contact that the next `add` creates.
    pub open spec fn next_contact(self, name: Seq<char>, email: Seq<char>) -> ContactView {
        ContactView { id: self.last_id + 1, name, email }
    }

    /// The directory after a contact with a fresh id was appended.
    pub open spec fn add(self, name: Seq<char>, email: Seq<char>) -> Directory {
        Directory {
            contacts: self.contacts.push(self.next_contact(name, email)),
            last_id: self.last_id + 1,
        }
    }

    /// The directory after the contact with this id took a new name and
    /// email, in place; unchanged if no contact has the id.
    pub open spec fn edit(self, id: nat, name: Seq<char>, email: Seq<char>) -> Directory {
        if self.holds(id) {
            Directory {
                contacts: self.contacts.update(self.position(id), ContactView { id, name, email }),
                last_id: self.last_id,
            }
        } else {
            self
        }
    }

    /// The directory without the contact with this id; unchanged if no
    /// contact has the id.
    pub open spec fn remove(self, id: nat) -> Directory {
        if self.holds(id) {
            Directory { contacts: self.contacts.remove(self.position(id)), last_id: self.last_id }
        } else {
            self
        }
    }

    /// Where some contact has an email, one of them is the first.
    pub proof fn lemma_first_with_email(self, email: Seq<char>, i: int)
        requires
            0 <= i < self.contacts.len(),
            self.contacts[i].email == email,
        ensures
            exists|k: int| self.first_with_email(email, k),
        decreases i,
    {
        if forall|j: int| 0 <= j < i ==> (#[trigger] self.contacts[j]).email != email {
            assert(self.first_with_email(email, i));
        } else {
            let j = choose|j: int| 0 <= j < i && (#[trigger] self.contacts[j]).email == email;
            self.lemma_first_with_email(email, j);
        }
    }

    /// Looking an email up finds a contact exactly where some contact has
    /// the email, and the contact found has it.
    pub proof fn lemma_find_by_email(self, email: Seq<char>)
        ensures
            self.find_by_email(email) is Some <==> self.has_email(email),
            self.find_by_email(email) matches Some(holder) ==> {
                &&& holder.email == email
                &&& self.contacts.contains(holder)
            },
    {
        if self.has_email(email) {
            let i = choose|i: int|
                0 <= i < self.contacts.len() && (#[trigger] self.contacts[i]).email == email;
            self.lemma_first_with_email(email, i);
        }
        if self.find_by_email(email) is Some {
            let k = choose|k: int| self.first_with_email(email, k);
        }
    }

    /// Adding a contact with an email that was available keeps the emails
    /// unique.
    pub proof fn lemma_add_keeps_emails_unique(self, name: Seq<char>, email: Seq<char>)
        requires
            self.available(email, None),
        ensures
            self.emails_unique() ==> self.add(name, email).emails_unique(),
    {
        self.lemma_find_by_email(email);
    }

    /// Giving a contact an email that was available to it keeps the emails
    /// unique.
    pub proof fn lemma_edit_keeps_emails_unique(self, id: nat, name: Seq<char>, email: Seq<char>)
        requires
            self.wf(),
            self.available(email, Some(id)),
        ensures
            self.emails_unique() ==> self.edit(id, name, email).emails_unique(),
    {
        self.lemma_find_by_email(email);
    }

    /// Removing a contact leaves a well-formed directory that no longer
    /// holds the id, and keeps the emails unique; removing an id that
    /// nobody has changes nothing.
    pub proof fn lemma_remove(self, id: nat)
        requires
            self.wf(),
        ensures
            self.remove(id).wf(),
            !self.remove(id).holds(id),
            self.emails_unique() ==> self.remove(id).emails_unique(),
            !self.holds(id) ==> self.remove(id) == self,
    {
    }
}

} // verus!
