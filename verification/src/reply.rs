//! What to show a user after a request: the page to go to, with a notice to
//! show there once, or the form again with what had been submitted.
//!
//! This is the part of each answer that does not depend on how pages are
//! rendered or sent; whoever serves the directory turns a [`Reply`] into a
//! response.

use vstd::prelude::*;
use crate::contact::Contact;
use crate::service::{CreateError, UpdateError};
use crate::store::StoreError;

verus! {

/// The notice shown after a contact was created.
pub const CREATED_NOTICE: &'static str = "New Contact Saved";

/// The notice shown after a contact was updated.
pub const UPDATED_NOTICE: &'static str = "Changed Saved";

/// How a notice is meant.
#[derive(Debug, Clone, Copy, PartialEq, Eq)]
pub enum Level {
    Debug,
    Success,
}

/// A short text to show once, on the next page, and then forget.
#[derive(Debug, PartialEq, Eq)]
pub struct Notice {
    pub level: Level,
    pub text: String,
}

/// A page of the directory.
#[derive(Debug, Clone, Copy, PartialEq, Eq)]
pub enum Page {
    /// The list of contacts.
    List,
    /// The page of one contact.
    Detail { id: u32 },
}

/// What to show next.
#[derive(Debug, PartialEq, Eq)]
pub enum Reply {
    /// Go to `to`, and show `notice` there.
    Redirect { to: Page, notice: Option<Notice> },
    /// Show the form for a new contact again, as it was submitted, with the
    /// reason it was refused.
    NewForm { name: String, email: String, message: String },
    /// Show the form for contact `id` again, as it was submitted, with the
    /// reason it was refused.
    EditForm { id: u32, name: String, email: String, message: String },
    /// There is no such contact.
    Missing,
    /// The store failed.
    Failed { error: StoreError },
}

impl Reply {
    /// The reply is to go to `to` and show this notice there.
    pub open spec fn redirects(self, to: Page, level: Level, text: Seq<char>) -> bool {
        &&& self matches Reply::Redirect { to: target, notice: Some(notice) }
        &&& target == to
        &&& notice.level == level
        &&& notice.text@ == text
    }
}

/// The reply to a create request: on success the list, with a notice; on a
/// refusal the form again, filled as it was submitted.
pub fn reply_to_create(outcome: Result<Contact, CreateError>) -> (reply: Reply)
    ensures
        match outcome {
            Ok(_) => reply.redirects(Page::List, Level::Debug, CREATED_NOTICE@),
            Err(CreateError::InvalidEmail(rejected)) | Err(CreateError::EmailTaken(rejected)) => {
                reply == (Reply::NewForm {
                    name: rejected.submitted_name,
                    email: rejected.submitted_email,
                    message: rejected.message,
                })
            },
            Err(CreateError::Store(error)) => reply == (Reply::Failed { error }),
        },
{
    match outcome {
        Ok(_) => Reply::Redirect {
            to: Page::List,
            notice: Some(Notice { level: Level::Debug, text: CREATED_NOTICE.to_owned() }),
        },
        Err(CreateError::InvalidEmail(rejected)) => Reply::NewForm {
            name: rejected.submitted_name,
            email: rejected.submitted_email,
            message: rejected.message,
        },
        Err(CreateError::EmailTaken(rejected)) => Reply::NewForm {
            name: rejected.submitted_name,
            email: rejected.submitted_email,
            message: rejected.message,
        },
        Err(CreateError::Store(error)) => Reply::Failed { error },
    }
}

/// The reply to an update request: on success the contact's page, with a
/// notice; on a refusal the form again, filled as it was submitted, for the
/// same contact.
pub fn reply_to_update(outcome: Result<Contact, UpdateError>) -> (reply: Reply)
    ensures
        match outcome {
            Ok(contact) => reply.redirects(
                Page::Detail { id: contact.id },
                Level::Success,
                UPDATED_NOTICE@,
            ),
            Err(UpdateError::InvalidEmail(rejected)) | Err(UpdateError::EmailTaken(rejected)) => {
                reply == (Reply::EditForm {
                    id: rejected.id,
                    name: rejected.submitted_name,
                    email: rejected.submitted_email,
                    message: rejected.message,
                })
            },
            Err(UpdateError::NotFound(_)) => reply == Reply::Missing,
        },
{
    match outcome {
        Ok(contact) => Reply::Redirect {
            to: Page::Detail { id: contact.id },
            notice: Some(Notice { level: Level::Success, text: UPDATED_NOTICE.to_owned() }),
        },
        Err(UpdateError::InvalidEmail(rejected)) => Reply::EditForm {
            id: rejected.id,
            name: rejected.submitted_name,
            email: rejected.submitted_email,
            message: rejected.message,
        },
        Err(UpdateError::EmailTaken(rejected)) => Reply::EditForm {
            id: rejected.id,
            name: rejected.submitted_name,
            email: rejected.submitted_email,
            message: rejected.message,
        },
        Err(UpdateError::NotFound(_)) => Reply::Missing,
    }
}

/// The reply to a delete request: the list, whether or not there was a
/// contact to delete.
pub fn reply_to_delete() -> (reply: Reply)
    ensures
        reply == (Reply::Redirect { to: Page::List, notice: None }),
{
    Reply::Redirect { to: Page::List, notice: None }
}

} // verus!
