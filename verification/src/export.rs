//! The export formatter: every contact as one line of text.
//!
//! An export is taken of the store as it stands and then read line by line;
//! each line is formatted when it is asked for, none before. To start over,
//! take a new export.

use vstd::prelude::*;
use vstd::string::StringExecFns;
use crate::contact::{views, Contact, ContactView};
use crate::store::ContactStore;

verus! {

/// The line for one contact: `name: '<name>'`, a tab, `email: '<email>'`, a newline.
pub open spec fn export_line(contact: ContactView) -> Seq<char> {
    "name: '"@ + contact.name + "'\temail: '"@ + contact.email + "'\n"@
}

/// The lines for a run of contacts, one each, in the same order.
pub open spec fn export_lines(contacts: Seq<ContactView>) -> Seq<Seq<char>> {
    contacts.map_values(|c: ContactView| export_line(c))
}

/// Formats the line for one contact.
pub fn format_line(contact: &Contact) -> (line: String)
    ensures
        line@ == export_line(contact@),
{
    let mut line = "name: '".to_owned();
    line.append(contact.name.as_str());
    line.append("'\temail: '");
    line.append(contact.email.as_str());
    line.append("'\n");
    line
}

/// An export under way: the contacts it was taken of, and how many lines
/// have been read.
pub struct Export {
    contacts: Vec<Contact>,
    position: usize,
}

impl Export {
    #[verifier::type_invariant]
    spec fn in_range(self) -> bool {
        self.position <= self.contacts@.len()
    }

    /// The lines not yet read, in the order in which they will come.
    pub closed spec fn pending(&self) -> Seq<Seq<char>> {
        export_lines(views(self.contacts@)).skip(self.position as int)
    }

    /// Reads the next line; `None` once every line has been read.
    pub fn next_line(&mut self) -> (line: Option<String>)
        ensures
            match line {
                Some(text) => {
                    &&& old(self).pending().len() > 0
                    &&& text@ == old(self).pending()[0]
                    &&& final(self).pending() == old(self).pending().drop_first()
                },
                None => old(self).pending().len() == 0 && final(self).pending() == old(self).pending(),
            },
    {
        proof {
            use_type_invariant(&*self);
        }
        if self.position < self.contacts.len() {
            let text = format_line(&self.contacts[self.position]);
            self.position = self.position + 1;
            Some(text)
        } else {
            None
        }
    }
}

/// Takes an export of `store`: one line per contact, in store order.
pub fn export_all(store: &ContactStore) -> (export: Export)
    ensures
        store@.wf(),
        export.pending() == export_lines(store@.contacts),
{
    Export { contacts: store.get_all(), position: 0 }
}

} // verus!
