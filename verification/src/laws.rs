//! Laws of the directory: what holds of the service's operations taken
//! together, proved from their contracts.

use vstd::prelude::*;
use crate::contact::{Contact, ContactView};
use crate::directory::{name_contains, Directory};
use crate::service::{creation, revision, CreateError, UpdateError};
use crate::text::occurs_at;
use crate::validation::{dot_in_domain, syntax_fault};

verus! {

/// A filter that every element passes leaves the sequence as it is.
proof fn lemma_filter_keeps_all<A>(s: Seq<A>, pred: spec_fn(A) -> bool)
    requires
        forall|i: int| 0 <= i < s.len() ==> pred(#[trigger] s[i]),
    ensures
        s.filter(pred) == s,
    decreases s.len(),
{
    reveal(Seq::filter);
    if s.len() > 0 {
        lemma_filter_keeps_all(s.drop_last(), pred);
    }
}

/// Creating a contact with a well-formed email that nobody has succeeds,
/// as long as ids are left, and reading the new id afterwards gives the
/// name and email that were submitted.
pub proof fn law_created_contact_is_read_back(
    before: Directory,
    name: Seq<char>,
    email: Seq<char>,
    verdict: Option<Seq<char>>,
    after: Directory,
    created: Result<Contact, CreateError>,
)
    requires
        before.wf(),
        before.last_id < u32::MAX,
        syntax_fault(email, verdict) is None,
        !before.has_email(email),
        creation(before, name, email, verdict, after, created),
    ensures
        created is Ok,
        after.get(created->Ok_0@.id) == Some(created->Ok_0@),
        created->Ok_0@.name == name,
        created->Ok_0@.email == email,
{
    before.lemma_find_by_email(email);
    let last = before.contacts.len() as int;
    assert(after.contacts[last] == before.next_contact(name, email));
}

/// Creating a contact with an email that some contact already has is
/// refused as taken and leaves the directory, and so the number of
/// contacts, as it was. The email is taken to be well formed: one that is
/// not is refused for that, before anyone asks who has it.
pub proof fn law_taken_email_is_refused(
    before: Directory,
    name: Seq<char>,
    email: Seq<char>,
    verdict: Option<Seq<char>>,
    after: Directory,
    created: Result<Contact, CreateError>,
)
    requires
        before.wf(),
        syntax_fault(email, verdict) is None,
        before.has_email(email),
        creation(before, name, email, verdict, after, created),
    ensures
        created is Err,
        created->Err_0 is EmailTaken,
        after == before,
        after.contacts.len() == before.contacts.len(),
{
    before.lemma_find_by_email(email);
}

/// Creating a contact with an email that has no '@', or no '.' in its
/// domain, is refused as invalid, whatever the parser said of it, and leaves
/// the directory as it was.
pub proof fn law_malformed_email_is_refused(
    before: Directory,
    name: Seq<char>,
    email: Seq<char>,
    verdict: Option<Seq<char>>,
    after: Directory,
    created: Result<Contact, CreateError>,
)
    requires
        !email.contains('@') || !dot_in_domain(email),
        creation(before, name, email, verdict, after, created),
    ensures
        created is Err,
        created->Err_0 is InvalidEmail,
        after == before,
{
}

/// A contact may keep its own email: updating it with the email it has is
/// not refused as taken, though looking the email up finds a contact. It
/// succeeds, and the contact then has the new name under its old id. This
/// holds of a directory with unique emails, for an email that is well formed.
pub proof fn law_update_keeps_own_email(
    before: Directory,
    id: nat,
    name: Seq<char>,
    verdict: Option<Seq<char>>,
    after: Directory,
    updated: Result<Contact, UpdateError>,
)
    requires
        before.wf(),
        before.emails_unique(),
        before.holds(id),
        syntax_fault(before.get(id)->0.email, verdict) is None,
        revision(before, id, name, before.get(id)->0.email, verdict, after, updated),
    ensures
        before.find_by_email(before.get(id)->0.email) is Some,
        before.available(before.get(id)->0.email, Some(id)),
        updated is Ok,
        after.get(id) == Some(ContactView { id, name, email: before.get(id)->0.email }),
{
    before.lemma_find_by_email(before.get(id)->0.email);
    assert(after.contacts[before.position(id)].id == id);
}

/// Deleting an id that no contact has changes nothing, and deleting twice
/// is deleting once.
pub proof fn law_delete_is_idempotent(before: Directory, id: nat)
    requires
        before.wf(),
    ensures
        !before.holds(id) ==> before.remove(id) == before,
        before.remove(id).remove(id) == before.remove(id),
{
    before.lemma_remove(id);
}

/// Searching for the empty text shows what listing shows: every contact, in
/// store order.
pub proof fn law_empty_search_lists_all(directory: Directory)
    ensures
        directory.search_by_name(Seq::empty()) == directory.contacts,
{
    let pred = name_contains(Seq::<char>::empty());
    assert forall|i: int| 0 <= i < directory.contacts.len() implies pred(
        #[trigger] directory.contacts[i],
    ) by {
        assert(occurs_at(directory.contacts[i].name, Seq::<char>::empty(), 0));
    }
    lemma_filter_keeps_all(directory.contacts, pred);
}

/// Creating a contact never makes two contacts share an email, whatever
/// comes of it.
pub proof fn law_create_keeps_emails_unique(
    before: Directory,
    name: Seq<char>,
    email: Seq<char>,
    verdict: Option<Seq<char>>,
    after: Directory,
    created: Result<Contact, CreateError>,
)
    requires
        before.emails_unique(),
        creation(before, name, email, verdict, after, created),
    ensures
        after.emails_unique(),
{
    if created is Ok {
        before.lemma_add_keeps_emails_unique(name, email);
    }
}

/// Updating a contact never makes two contacts share an email, whatever
/// comes of it.
pub proof fn law_update_keeps_emails_unique(
    before: Directory,
    id: nat,
    name: Seq<char>,
    email: Seq<char>,
    verdict: Option<Seq<char>>,
    after: Directory,
    updated: Result<Contact, UpdateError>,
)
    requires
        before.wf(),
        before.emails_unique(),
        revision(before, id, name, email, verdict, after, updated),
    ensures
        after.emails_unique(),
{
    if updated is Ok {
        before.lemma_edit_keeps_emails_unique(id, name, email);
    }
}

/// An id that was handed out is never handed out again: the id that `add`
/// assigns is above every id in the directory and above every id assigned
/// before, and neither `edit` nor `remove` brings the mark back down.
pub proof fn law_ids_are_never_reused(
    before: Directory,
    id: nat,
    name: Seq<char>,
    email: Seq<char>,
)
    requires
        before.wf(),
    ensures
        !before.holds(before.next_contact(name, email).id),
        before.next_contact(name, email).id > before.last_id,
        before.add(name, email).last_id == before.next_contact(name, email).id,
        before.edit(id, name, email).last_id == before.last_id,
        before.remove(id).last_id == before.last_id,
{
}

/// Editing changes one contact and no other: the directory keeps its
/// length, its order and every id, the edited contact has its new name and
/// email under its old id, and every other contact is as it was.
pub proof fn law_edit_changes_one_contact(
    before: Directory,
    id: nat,
    name: Seq<char>,
    email: Seq<char>,
    other: nat,
)
    requires
        before.wf(),
        before.holds(id),
        other != id,
    ensures
        before.edit(id, name, email).wf(),
        before.edit(id, name, email).contacts.len() == before.contacts.len(),
        forall|i: int|
            0 <= i < before.contacts.len() ==> (#[trigger] before.edit(
                id,
                name,
                email,
            ).contacts[i]).id == before.contacts[i].id,
        before.edit(id, name, email).get(id) == Some(ContactView { id, name, email }),
        before.edit(id, name, email).get(other) == before.get(other),
{
    let after = before.edit(id, name, email);
    assert(after.contacts[before.position(id)].id == id);
    if before.holds(other) {
        let at = before.position(other);
        assert(after.contacts[at] == before.contacts[at]);
    }
}

/// A contact is there from its creation until it is deleted: adding a
/// contact, editing any contact and removing another one leave it in the
/// directory; removing it takes it out.
pub proof fn law_contact_lives_until_deleted(
    before: Directory,
    id: nat,
    other: nat,
    name: Seq<char>,
    email: Seq<char>,
)
    requires
        before.wf(),
        before.holds(id),
        other != id,
    ensures
        before.add(name, email).holds(id),
        before.edit(other, name, email).holds(id),
        before.edit(id, name, email).holds(id),
        before.remove(other).holds(id),
        !before.remove(id).holds(id),
{
    let p = before.position(id);
    assert(before.add(name, email).contacts[p].id == id);
    assert(before.edit(id, name, email).contacts[p].id == id);
    if before.holds(other) {
        let o = before.position(other);
        assert(before.edit(other, name, email).contacts[p].id == id);
        let left = before.remove(other);
        let at = if p < o { p } else { p - 1 };
        assert(left.contacts[at] == before.contacts[p]);
    }
    before.lemma_remove(id);
}

} // verus!
