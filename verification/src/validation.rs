//! The validation layer: is an email address well formed, and is it free.
//!
//! Syntax is judged in two steps. The `email_address` crate parses the
//! address by the grammar of the mail RFCs, as a bare `local-part@domain`
//! without a display name; what it says of an address is named
//! [`parser_verdict`] and taken on trust. On top of that this library asks
//! for an '@' and for a '.' in the domain behind it, and proves that it does.

use email_address::{EmailAddress, Options};
use vstd::prelude::*;
use crate::store::ContactStore;
use crate::text::chars_of;

verus! {

/// An address was refused for its syntax; `reason` says why, for the user.
#[derive(Debug, PartialEq, Eq)]
pub struct InvalidEmail {
    pub reason: String,
}

/// An address was refused because a contact already has it.
#[derive(Debug, Clone, Copy, PartialEq, Eq)]
pub struct EmailTaken;

/// The reason given for an address without '@' that the parser let pass.
pub const NO_SEPARATOR: &'static str = "The address has no '@'.";

/// The reason given for an address whose domain holds no '.'.
pub const NO_DOT_IN_DOMAIN: &'static str = "The domain has no '.'.";

/// What the `email_address` crate says of an address when it parses it with
/// display names switched off: `None` where it accepts the address, else the
/// text of the error it returns.
pub uninterp spec fn parser_verdict(address: Seq<char>) -> Option<Seq<char>>;

/// The view of an optional text.
pub open spec fn text_view(text: Option<String>) -> Option<Seq<char>> {
    match text {
        Some(t) => Some(t@),
        None => None,
    }
}

/// The view of an optional id.
pub open spec fn id_view(id: Option<u32>) -> Option<nat> {
    match id {
        Some(n) => Some(n as nat),
        None => None,
    }
}

/// Position `i` holds the '@' that parts local part and domain: the last one.
pub open spec fn separator_at(address: Seq<char>, i: int) -> bool {
    &&& 0 <= i < address.len()
    &&& address[i] == '@'
    &&& forall|k: int| i < k < address.len() ==> #[trigger] address[k] != '@'
}

/// The domain, which is what follows the last '@', holds a '.'.
pub open spec fn dot_in_domain(address: Seq<char>) -> bool {
    exists|i: int, j: int|
        #![trigger separator_at(address, i), address[j]]
        separator_at(address, i) && i < j < address.len() && address[j] == '.'
}

/// Why `address` is refused, given the parser's verdict on it; `None` where
/// it is accepted. The parser's own reason comes first; an address that it
/// accepts still needs an '@', and a '.' in its domain.
pub open spec fn syntax_fault(address: Seq<char>, verdict: Option<Seq<char>>) -> Option<Seq<char>> {
    match verdict {
        Some(reason) => Some(reason),
        None => {
            if !address.contains('@') {
                Some(NO_SEPARATOR@)
            } else if !dot_in_domain(address) {
                Some(NO_DOT_IN_DOMAIN@)
            } else {
                None
            }
        },
    }
}

/// Parses `address` with `EmailAddress::parse_with_options` of the
/// `email_address` crate, with its default options but for display names,
/// which are switched off. Trusted: the result is that crate's verdict,
/// `None` for an address it accepts and otherwise the `Display` text of its
/// error. Nothing is claimed of which addresses it accepts.
#[verifier::external_body]
pub(crate) fn parse_address(address: &str) -> (verdict: Option<String>)
    ensures
        text_view(verdict) == parser_verdict(address@),
{
    match EmailAddress::parse_with_options(address, Options::default().without_display_text()) {
        Ok(_) => None,
        Err(e) => Some(e.to_string()),
    }
}

/// The index of the last '@' in `chars`.
fn last_separator(chars: &Vec<char>) -> (at: Option<usize>)
    ensures
        match at {
            Some(i) => separator_at(chars@, i as int),
            None => !chars@.contains('@'),
        },
{
    let mut i: usize = chars.len();
    while i > 0
        invariant
            i <= chars@.len(),
            forall|k: int| i <= k < chars@.len() ==> #[trigger] chars@[k] != '@',
        decreases i,
    {
        i -= 1;
        if chars[i] == '@' {
            return Some(i);
        }
    }
    None
}

/// Whether a '.' stands in `chars` behind position `from`.
fn dot_after(chars: &Vec<char>, from: usize) -> (found: bool)
    requires
        from < chars@.len(),
    ensures
        found == exists|j: int| from < j < chars@.len() && #[trigger] chars@[j] == '.',
{
    let len: usize = chars.len();
    let mut j: usize = from + 1;
    while j < len
        invariant
            len == chars@.len(),
            from < j <= len,
            forall|k: int| from < k < j ==> #[trigger] chars@[k] != '.',
        decreases len - j,
    {
        if chars[j] == '.' {
            return true;
        }
        j += 1;
    }
    false
}

/// Judges the syntax of `address`, given what the parser said of it
/// (`None`: accepted; else its reason). Refuses with the parser's reason; an
/// address that the parser accepted is still refused if it has no '@', or no
/// '.' in its domain.
pub fn judge_email_syntax(address: &str, verdict: Option<String>) -> (judged: Result<(), InvalidEmail>)
    ensures
        match judged {
            Ok(_) => syntax_fault(address@, text_view(verdict)) is None,
            Err(invalid) => syntax_fault(address@, text_view(verdict)) == Some(invalid.reason@),
        },
{
    if let Some(reason) = verdict {
        return Err(InvalidEmail { reason });
    }
    let chars = chars_of(address);
    match last_separator(&chars) {
        None => Err(InvalidEmail { reason: NO_SEPARATOR.to_owned() }),
        Some(at) => {
            if dot_after(&chars, at) {
                Ok(())
            } else {
                Err(InvalidEmail { reason: NO_DOT_IN_DOMAIN.to_owned() })
            }
        },
    }
}

/// Validates the syntax of an email address: it must pass the parser of the
/// `email_address` crate, and have an '@' with a '.' in the domain behind it.
pub fn validate_email_syntax(address: &str) -> (judged: Result<(), InvalidEmail>)
    ensures
        match judged {
            Ok(_) => syntax_fault(address@, parser_verdict(address@)) is None,
            Err(invalid) => syntax_fault(address@, parser_verdict(address@)) == Some(
                invalid.reason@,
            ),
        },
{
    let verdict = parse_address(address);
    judge_email_syntax(address, verdict)
}

/// Whether `email` may be given to a contact: looking it up in `store`
/// finds nobody, or finds `excluding_id` itself, which may keep its own
/// address.
pub fn check_email_available(
    store: &ContactStore,
    email: &str,
    excluding_id: Option<u32>,
) -> (free: Result<(), EmailTaken>)
    ensures
        store@.wf(),
        free is Ok <==> store@.available(email@, id_view(excluding_id)),
{
    match store.find_by_email(email) {
        None => Ok(()),
        Some(holder) => match excluding_id {
            Some(id) if holder.id == id => Ok(()),
            _ => Err(EmailTaken),
        },
    }
}

} // verus!
