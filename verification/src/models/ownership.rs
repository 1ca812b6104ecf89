//! Ownership reassignment: handing a set of records, named by their public
//! identifiers, to another user, who is named by display name.
//!
//! A display name need not be unique. Where several users carry the name,
//! the first in the directory is taken.

use crate::models::identity::Uuid;
use crate::utils::error::{CoreError, Entity};
use crate::utils::text::same_text;
use vstd::prelude::*;

verus! {

/// A user as the directory lists it: internal id and display name.
#[derive(Debug, Clone)]
pub struct NamedUser {
    pub user_id: i32,
    pub full_name: String,
}

/// A bulk change of owner: every record whose public identifier is listed
/// gets `user_id` as its owner.
#[derive(Debug, Clone)]
pub struct Reassignment {
    pub user_id: i32,
    pub uuids: Vec<Uuid>,
}

/// A record that has a public identifier and an owner.
pub trait Owned: Sized {
    /// The public identifier of the record.
    spec fn public_id(&self) -> Option<Uuid>;

    /// The internal id of the user who owns the record.
    spec fn owner(&self) -> Option<i32>;

    /// Whether `other` is this record in every field but, at most, the owner.
    spec fn differs_in_owner_only(&self, other: &Self) -> bool;

    /// The public identifier of the record.
    fn uuid(&self) -> (id: Option<Uuid>)
        ensures
            id == self.public_id(),
    ;

    /// Makes `user_id` the owner and changes nothing else.
    fn set_owner(&mut self, user_id: i32)
        ensures
            final(self).owner() == Some(user_id),
            final(self).public_id() == old(self).public_id(),
            old(self).differs_in_owner_only(final(self)),
    ;
}

/// The internal id of the first user in the directory with this display name.
pub open spec fn owner_by_name(directory: Seq<NamedUser>, name: Seq<char>) -> Option<i32>
    decreases directory.len(),
{
    if directory.len() == 0 {
        None
    } else if directory[0].full_name@ == name {
        Some(directory[0].user_id)
    } else {
        owner_by_name(directory.drop_first(), name)
    }
}

/// What a reassignment makes of one record: a listed record gets the new
/// owner and keeps every other field; any other record stays as it is.
pub open spec fn reassigned<T: Owned>(plan: Reassignment, before: T, after: T) -> bool {
    if plan.covers(before.public_id()) {
        &&& after.owner() == Some(plan.user_id)
        &&& after.public_id() == before.public_id()
        &&& before.differs_in_owner_only(&after)
    } else {
        after == before
    }
}

impl Reassignment {
    /// Whether the reassignment lists this public identifier. A record
    /// without one is never listed.
    pub open spec fn covers(self, id: Option<Uuid>) -> bool {
        id is Some && self.uuids@.contains(id->0)
    }

    /// Plans the reassignment of the listed records to the user with the
    /// given display name; `NotFound` where the directory has no such user.
    pub fn new(directory: &Vec<NamedUser>, user_full_name: &str, uuids: Vec<Uuid>) -> (plan: Result<
        Reassignment,
        CoreError,
    >)
        ensures
            match plan {
                Ok(plan) => {
                    &&& owner_by_name(directory@, user_full_name@) == Some(plan.user_id)
                    &&& plan.uuids@ == uuids@
                },
                Err(e) => {
                    &&& owner_by_name(directory@, user_full_name@) is None
                    &&& e == CoreError::NotFound(Entity::User)
                },
            },
    {
        let mut i: usize = 0;
        assert(directory@.subrange(0, directory@.len() as int) =~= directory@);
        while i < directory.len()
            invariant
                i <= directory@.len(),
                owner_by_name(directory@, user_full_name@) == owner_by_name(
                    directory@.subrange(i as int, directory@.len() as int),
                    user_full_name@,
                ),
            decreases directory@.len() - i,
        {
            let ghost rest = directory@.subrange(i as int, directory@.len() as int);
            if same_text(directory[i].full_name.as_str(), user_full_name) {
                return Ok(Reassignment { user_id: directory[i].user_id, uuids });
            }
            assert(rest.drop_first() =~= directory@.subrange(i + 1, directory@.len() as int));
            i += 1;
        }
        Err(CoreError::NotFound(Entity::User))
    }

    /// Whether the reassignment lists this public identifier.
    pub fn is_listed(&self, id: Option<Uuid>) -> (listed: bool)
        ensures
            listed == self.covers(id),
    {
        let wanted = match id {
            Some(wanted) => wanted,
            None => {
                return false;
            },
        };
        let mut i: usize = 0;
        while i < self.uuids.len()
            invariant
                i <= self.uuids@.len(),
                id == Some(wanted),
                forall|j: int| 0 <= j < i ==> self.uuids@[j] != wanted,
            decreases self.uuids@.len() - i,
        {
            if self.uuids[i] == wanted {
                return true;
            }
            i += 1;
        }
        false
    }

    /// Carries the reassignment out on records held in memory: every listed
    /// record gets the new owner and keeps its other fields, and no other
    /// record changes.
    pub fn apply<T: Owned>(&self, records: &mut Vec<T>)
        ensures
            final(records)@.len() == old(records)@.len(),
            forall|i: int|
                0 <= i < old(records)@.len() ==> reassigned(
                    *self,
                    old(records)@[i],
                    #[trigger] final(records)@[i],
                ),
    {
        let mut i: usize = 0;
        while i < records.len()
            invariant
                i <= records@.len(),
                records@.len() == old(records)@.len(),
                forall|j: int|
                    0 <= j < i ==> reassigned(*self, old(records)@[j], #[trigger] records@[j]),
                forall|j: int| i <= j < records@.len() ==> records@[j] == old(records)@[j],
            decreases records@.len() - i,
        {
            if self.is_listed(records[i].uuid()) {
                records[i].set_owner(self.user_id);
            }
            i += 1;
        }
    }
}

} // verus!
