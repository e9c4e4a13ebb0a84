//! A contact directory: contacts with a name and a unique email address,
//! kept in a store, managed through a service that validates what it is given.
//!
//! - [`contact`]: the contact record and its view.
//! - [`directory`]: the directory as a mathematical value; every contract
//!   below is stated against it.
//! - [`store`]: the store that owns the records.
//! - [`validation`]: email syntax, and whether an email is free.
//! - [`service`]: create, read, update, delete and list.
//! - [`export`]: the directory as lines of text.
//! - [`reply`]: what to show a user after a request.
//! - [`text`]: characters of a string, containment without regard to case.
//! - [`laws`]: what holds of the operations taken together.

pub mod contact;
pub mod directory;
pub mod export;
pub mod laws;
pub mod reply;
pub mod service;
pub mod store;
pub mod text;
pub mod validation;

pub use contact::{Contact, ContactView};
pub use directory::Directory;
pub use export::{export_all, format_line, Export};
pub use reply::{reply_to_create, reply_to_delete, reply_to_update, Level, Notice, Page, Reply};
pub use service::{ContactService, CreateError, CreateRejected, EditRejected, UpdateError};
pub use store::{ContactStore, NotFound, StoreError};
pub use validation::{
    check_email_available, judge_email_syntax, validate_email_syntax, EmailTaken, InvalidEmail,
};
