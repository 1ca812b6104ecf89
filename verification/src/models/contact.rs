//! Contacts: people whom a user keeps in touch with, held in the clear.

use crate::models::identity::Timestamp;
use crate::utils::error::{CoreError, Entity};
use crate::utils::text::text;
use vstd::prelude::*;

verus! {

/// A contact of a user.
#[derive(Debug)]
pub struct Contact {
    pub id: Option<i32>,
    pub email: Option<String>,
    pub first_name: Option<String>,
    pub last_name: Option<String>,
    pub phone_number: Option<String>,
    pub user_id: Option<i32>,
}

/// One entry in the history of a contact.
#[derive(Debug)]
pub struct ContactHistory {
    pub id: Option<i32>,
    pub p_type: String,
    pub time: Timestamp,
}

/// The number of contacts on a page where a request names none.
pub const DEFAULT_PAGE: i64 = 20;

/// The largest number of contacts on a page.
pub const MAX_PAGE: i64 = 100;

/// The page that a request asks for: the limit, 20 where none is given, kept
/// between 1 and 100, and the offset, 0 where none is given or a negative
/// one.
pub open spec fn page_of(limit: Option<i64>, offset: Option<i64>) -> (i64, i64) {
    let wanted = match limit {
        Some(limit) => limit,
        None => DEFAULT_PAGE,
    };
    let skipped = match offset {
        Some(offset) => offset,
        None => 0,
    };
    (
        if wanted < 1 {
            1
        } else if wanted > MAX_PAGE {
            MAX_PAGE
        } else {
            wanted
        },
        if skipped < 0 {
            0
        } else {
            skipped
        },
    )
}

/// Whether two optional texts are both present and equal. An absent text
/// equals nothing, not even another absent one.
pub open spec fn same_present(a: Option<String>, b: Option<String>) -> bool {
    a is Some && b is Some && a->0@ == b->0@
}

/// Whether the store holds a contact with the email or the phone number of
/// this one.
pub open spec fn contact_known(contacts: Seq<Contact>, contact: Contact) -> bool {
    exists|i: int| 0 <= i < contacts.len() && (#[trigger] contacts[i]).same_person(contact)
}

impl Contact {
    /// Whether two contacts share their email or their phone number.
    pub open spec fn same_person(self, other: Contact) -> bool {
        same_present(self.email, other.email) || same_present(
            self.phone_number,
            other.phone_number,
        )
    }

    /// Whether two optional texts are both present and equal.
    fn both_equal(a: &Option<String>, b: &Option<String>) -> (same: bool)
        ensures
            same == same_present(*a, *b),
    {
        match (a, b) {
            (Some(a), Some(b)) => *a == *b,
            _ => false,
        }
    }

    /// Whether the store holds a contact with the email or the phone number
    /// of this one.
    pub fn is_contact_exists(contacts: &Vec<Contact>, contact: &Contact) -> (known: bool)
        ensures
            known == contact_known(contacts@, *contact),
    {
        let mut i: usize = 0;
        while i < contacts.len()
            invariant
                i <= contacts@.len(),
                forall|j: int| 0 <= j < i ==> !(#[trigger] contacts@[j]).same_person(*contact),
            decreases contacts@.len() - i,
        {
            if Contact::both_equal(&contacts[i].email, &contact.email) || Contact::both_equal(
                &contacts[i].phone_number,
                &contact.phone_number,
            ) {
                return true;
            }
            i += 1;
        }
        false
    }

    /// The limit and the offset of the page that a request asks for.
    pub fn page(limit: Option<i64>, offset: Option<i64>) -> (bounds: (i64, i64))
        ensures
            bounds == page_of(limit, offset),
            1 <= bounds.0 <= MAX_PAGE,
            0 <= bounds.1,
    {
        let wanted = match limit {
            Some(limit) => limit,
            None => DEFAULT_PAGE,
        };
        let skipped = match offset {
            Some(offset) => offset,
            None => 0,
        };
        (
            if wanted < 1 {
                1
            } else if wanted > MAX_PAGE {
                MAX_PAGE
            } else {
                wanted
            },
            if skipped < 0 {
                0
            } else {
                skipped
            },
        )
    }

    /// Accepts a new contact for insertion; refuses one that the store
    /// already holds.
    pub fn new(contacts: &Vec<Contact>, new_contact: Contact) -> (accepted: Result<
        Contact,
        CoreError,
    >)
        ensures
            match accepted {
                Ok(contact) => !contact_known(contacts@, new_contact) && contact == new_contact,
                Err(e) => contact_known(contacts@, new_contact) && e == CoreError::AlreadyExists(
                    Entity::Contact,
                ),
            },
    {
        if Contact::is_contact_exists(contacts, &new_contact) {
            return Err(CoreError::AlreadyExists(Entity::Contact));
        }
        Ok(new_contact)
    }

    /// Accepts a history entry for a contact; `NotFound` where the store has
    /// no such contact.
    pub fn create_history(contact_exists: bool, history: ContactHistory) -> (accepted: Result<
        ContactHistory,
        CoreError,
    >)
        ensures
            accepted == if contact_exists {
                Ok::<ContactHistory, CoreError>(history)
            } else {
                Err(CoreError::NotFound(Entity::Contact))
            },
    {
        if !contact_exists {
            return Err(CoreError::NotFound(Entity::Contact));
        }
        Ok(history)
    }

    /// Hands out the history of a contact; `NotFound` where the store has no
    /// such contact.
    pub fn get_history(contact_exists: bool, history: Vec<ContactHistory>) -> (handed: Result<
        Vec<ContactHistory>,
        CoreError,
    >)
        ensures
            handed == if contact_exists {
                Ok::<Vec<ContactHistory>, CoreError>(history)
            } else {
                Err(CoreError::NotFound(Entity::Contact))
            },
    {
        if !contact_exists {
            return Err(CoreError::NotFound(Entity::Contact));
        }
        Ok(history)
    }
}

} // verus!
