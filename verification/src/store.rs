//! The contact store: the one place that owns the contact records.
//!
//! It keeps the contacts in memory, in the order of their ids, and never
//! hands out an id twice. It does not look at email addresses when it adds
//! or edits: keeping them unique is the service's task.

use vstd::prelude::*;
use crate::contact::{views, Contact};
use crate::directory::{name_contains, Directory};
use crate::text::{chars_of, contains_ignoring_case};

verus! {

/// The store could not carry out an operation.
#[derive(Debug, Clone, Copy, PartialEq, Eq)]
pub enum StoreError {
    /// Every id has been handed out; no further contact can be added.
    IdsExhausted,
}

/// No contact has the id that an operation named.
#[derive(Debug, Clone, Copy, PartialEq, Eq)]
pub struct NotFound {
    pub id: u32,
}

/// The contacts of a directory, with the last id handed out.
pub struct ContactStore {
    contacts: Vec<Contact>,
    last_id: u32,
}

impl View for ContactStore {
    type V = Directory;

    closed spec fn view(&self) -> Directory {
        Directory { contacts: views(self.contacts@), last_id: self.last_id as nat }
    }
}

impl ContactStore {
    /// Holds of every store at all times: its directory is well formed.
    #[verifier::type_invariant]
    pub open spec fn well_formed(self) -> bool {
        self@.wf()
    }

    /// An empty store; the first contact added to it gets id 1.
    pub fn new() -> (store: ContactStore)
        ensures
            store@ == Directory::empty(),
    {
        let store = ContactStore { contacts: Vec::new(), last_id: 0 };
        assert(store@.contacts =~= Seq::empty());
        store
    }

    /// An empty store that takes up the ids where an earlier one left off:
    /// the first contact added to it gets the id after `last_id`.
    pub fn resuming_after(last_id: u32) -> (store: ContactStore)
        ensures
            store@ == (Directory { contacts: Seq::empty(), last_id: last_id as nat }),
    {
        let store = ContactStore { contacts: Vec::new(), last_id };
        assert(store@.contacts =~= Seq::empty());
        store
    }

    /// The number of contacts.
    pub fn len(&self) -> (n: usize)
        ensures
            self@.wf(),
            n == self@.contacts.len(),
    {
        proof {
            use_type_invariant(self);
        }
        self.contacts.len()
    }

    /// Where the contact with this id stands.
    fn index_of(&self, id: u32) -> (at: Option<usize>)
        ensures
            self@.wf(),
            match at {
                Some(k) => {
                    &&& k < self.contacts@.len()
                    &&& self.contacts@[k as int].id == id
                    &&& self@.holds(id as nat)
                    &&& self@.position(id as nat) == k
                },
                None => !self@.holds(id as nat),
            },
    {
        proof {
            use_type_invariant(self);
        }
        let mut k: usize = 0;
        while k < self.contacts.len()
            invariant
                k <= self.contacts@.len(),
                self@.wf(),
                forall|i: int| 0 <= i < k ==> (#[trigger] self@.contacts[i]).id != id,
            decreases self.contacts@.len() - k,
        {
            if self.contacts[k].id == id {
                assert(self@.contacts[k as int].id == id as nat);
                return Some(k);
            }
            k += 1;
        }
        None
    }

    /// The contact with this id, or `None` if there is none.
    pub fn get(&self, id: u32) -> (found: Option<Contact>)
        ensures
            self@.wf(),
            match found {
                Some(c) => self@.get(id as nat) == Some(c@),
                None => self@.get(id as nat) is None,
            },
    {
        match self.index_of(id) {
            Some(k) => Some(self.contacts[k].clone()),
            None => None,
        }
    }

    /// Every contact, in store order: by ascending id.
    pub fn get_all(&self) -> (all: Vec<Contact>)
        ensures
            self@.wf(),
            views(all@) == self@.contacts,
    {
        proof {
            use_type_invariant(self);
        }
        let mut all: Vec<Contact> = Vec::new();
        let mut k: usize = 0;
        while k < self.contacts.len()
            invariant
                k <= self.contacts@.len(),
                views(all@) == self@.contacts.take(k as int),
            decreases self.contacts@.len() - k,
        {
            all.push(self.contacts[k].clone());
            k += 1;
            assert(self@.contacts.take(k as int) =~= self@.contacts.take(k - 1).push(
                self@.contacts[k - 1],
            ));
        }
        all
    }

    /// The first contact, in store order, whose email is exactly `email`.
    pub fn find_by_email(&self, email: &str) -> (found: Option<Contact>)
        ensures
            self@.wf(),
            match found {
                Some(c) => self@.find_by_email(email@) == Some(c@),
                None => self@.find_by_email(email@) is None,
            },
    {
        proof {
            use_type_invariant(self);
        }
        let wanted = email.to_owned();
        let mut k: usize = 0;
        while k < self.contacts.len()
            invariant
                k <= self.contacts@.len(),
                self@.wf(),
                wanted@ == email@,
                forall|i: int| 0 <= i < k ==> (#[trigger] self@.contacts[i]).email != email@,
            decreases self.contacts@.len() - k,
        {
            if self.contacts[k].email == wanted {
                assert(self@.first_with_email(email@, k as int));
                return Some(self.contacts[k].clone());
            }
            k += 1;
        }
        None
    }

    /// The contacts whose name contains `needle`, ASCII case ignored, in
    /// store order. The empty needle selects every contact.
    pub fn search_by_name(&self, needle: &str) -> (hits: Vec<Contact>)
        ensures
            self@.wf(),
            views(hits@) == self@.search_by_name(needle@),
    {
        proof {
            use_type_invariant(self);
        }
        let wanted = chars_of(needle);
        let mut hits: Vec<Contact> = Vec::new();
        let mut k: usize = 0;
        assert(self@.contacts.take(0).filter(name_contains(needle@)) =~= Seq::empty()) by {
            reveal(Seq::filter);
        }
        while k < self.contacts.len()
            invariant
                k <= self.contacts@.len(),
                wanted@ == needle@,
                views(hits@) == self@.contacts.take(k as int).filter(name_contains(needle@)),
            decreases self.contacts@.len() - k,
        {
            let name = chars_of(self.contacts[k].name.as_str());
            let ghost seen = self@.contacts.take(k as int);
            proof {
                assert(self@.contacts.take(k + 1) =~= seen.push(self@.contacts[k as int]));
                seen.lemma_filter_push(self@.contacts[k as int], name_contains(needle@));
            }
            if contains_ignoring_case(&name, &wanted) {
                hits.push(self.contacts[k].clone());
                assert(views(hits@) =~= seen.filter(name_contains(needle@)).push(
                    self@.contacts[k as int],
                ));
            }
            k += 1;
        }
        assert(self@.contacts.take(k as int) =~= self@.contacts);
        hits
    }

    /// Takes the contacts out and leaves none behind, so that they can be
    /// changed and put back: the store is well formed at every step.
    fn take_contacts(&mut self) -> (taken: Vec<Contact>)
        ensures
            taken == old(self).contacts,
            final(self).contacts@.len() == 0,
            final(self).last_id == old(self).last_id,
    {
        let mut taken: Vec<Contact> = Vec::new();
        core::mem::swap(&mut taken, &mut self.contacts);
        taken
    }

    /// Appends a contact under a fresh id and returns the id. Does not look
    /// at `email`: whether it is already in use is for the caller to decide.
    pub fn add(&mut self, name: String, email: String) -> (added: Result<u32, StoreError>)
        ensures
            final(self)@.wf(),
            match added {
                Ok(id) => {
                    &&& old(self)@.last_id < u32::MAX
                    &&& id == old(self)@.next_contact(name@, email@).id
                    &&& final(self)@ == old(self)@.add(name@, email@)
                },
                Err(error) => {
                    &&& old(self)@.last_id == u32::MAX
                    &&& error == StoreError::IdsExhausted
                    &&& final(self)@ == old(self)@
                },
            },
    {
        proof {
            use_type_invariant(&*self);
        }
        if self.last_id == u32::MAX {
            return Err(StoreError::IdsExhausted);
        }
        let id: u32 = self.last_id + 1;
        let mut contacts = self.take_contacts();
        contacts.push(Contact { id, name, email });
        assert(views(contacts@) =~= old(self)@.add(name@, email@).contacts);
        self.last_id = id;
        self.contacts = contacts;
        Ok(id)
    }

    /// Gives the contact with this id a new name and email, in place.
    pub fn edit(&mut self, id: u32, name: &str, email: &str) -> (edited: Result<(), NotFound>)
        ensures
            final(self)@.wf(),
            final(self)@ == old(self)@.edit(id as nat, name@, email@),
            match edited {
                Ok(_) => old(self)@.holds(id as nat),
                Err(missing) => !old(self)@.holds(id as nat) && missing.id == id,
            },
    {
        match self.index_of(id) {
            Some(k) => {
                let mut contacts = self.take_contacts();
                contacts.set(k, Contact { id, name: name.to_owned(), email: email.to_owned() });
                assert(views(contacts@) =~= old(self)@.edit(id as nat, name@, email@).contacts);
                self.contacts = contacts;
                Ok(())
            },
            None => Err(NotFound { id }),
        }
    }

    /// Takes the contact with this id out of the store.
    pub fn remove(&mut self, id: u32) -> (removed: Result<(), NotFound>)
        ensures
            final(self)@.wf(),
            final(self)@ == old(self)@.remove(id as nat),
            match removed {
                Ok(_) => old(self)@.holds(id as nat),
                Err(missing) => !old(self)@.holds(id as nat) && missing.id == id,
            },
    {
        match self.index_of(id) {
            Some(k) => {
                let mut contacts = self.take_contacts();
                contacts.remove(k);
                assert(views(contacts@) =~= old(self)@.remove(id as nat).contacts);
                self.contacts = contacts;
                Ok(())
            },
            None => Err(NotFound { id }),
        }
    }
}

} // verus!
