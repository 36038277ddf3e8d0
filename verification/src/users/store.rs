//! The record store: the records of all users, keyed by email, and the count
//! of the ids given out so far.
//!
//! Every operation takes the store by reference and works on it alone, so a
//! caller that shares a store between threads gives each operation exclusive
//! access for as long as it runs.

use vstd::prelude::*;
use vstd::hash_map::StringHashMap;
use crate::users::model::{UpsertUser, User, UserView};
use crate::users::records::{
    after_create, after_delete, after_update, created, empty_store, found, updated, well_formed,
    Records, StoreView,
};

verus! {

/// The largest id. Ids are `i32` and are given out in order from 1, so a
/// store that has assigned this many has no id left for a further record.
pub const LAST_ID: i32 = 2147483647;

/// The view of an optional record.
pub open spec fn record_view(record: Option<User>) -> Option<UserView> {
    match record {
        Some(user) => Some(user@),
        None => None,
    }
}

/// Whether `held` is finite, each of its records is stored under its own
/// email with an id between 1 and `assigned`, and no two share an id.
spec fn keyed(held: Map<Seq<char>, User>, assigned: int) -> bool {
    &&& held.dom().finite()
    &&& 0 <= assigned
    &&& forall|email: Seq<char>| #[trigger]
        held.contains_key(email) ==> held[email].email@ == email && 1 <= held[email].id
            <= assigned
    &&& forall|first: Seq<char>, second: Seq<char>|
        #[trigger] held.contains_key(first) && #[trigger] held.contains_key(second)
            && held[first].id == held[second].id ==> first == second
}

/// The views of the records of `held`.
spec fn views(held: Map<Seq<char>, User>) -> Records {
    held.map_values(|user: User| user@)
}

proof fn lemma_views_well_formed(held: Map<Seq<char>, User>, assigned: int)
    requires
        keyed(held, assigned),
    ensures
        well_formed(StoreView { records: views(held), assigned: assigned as nat }),
        views(held).len() == held.len(),
{
    assert(views(held).dom() =~= held.dom());
}

/// The records of all users. No two records share an email, and no two share
/// an id: ids are given out in order and never a second time.
pub struct UserStore {
    records: StringHashMap<User>,
    assigned: i32,
}

impl View for UserStore {
    type V = StoreView;

    closed spec fn view(&self) -> StoreView {
        StoreView { records: views(self.records@), assigned: self.assigned as nat }
    }
}

impl UserStore {
    #[verifier::type_invariant]
    spec fn keyed_by_email(self) -> bool {
        keyed(self.records@, self.assigned as int)
    }

    /// An empty store that has assigned no id.
    pub fn new() -> (store: Self)
        ensures
            store@ == empty_store(),
            well_formed(store@),
    {
        let store = UserStore { records: StringHashMap::new(), assigned: 0 };
        assert(store@ =~= empty_store());
        store
    }

    /// The number of records.
    pub fn len(&self) -> (count: usize)
        ensures
            count == self@.records.len(),
            well_formed(self@),
    {
        proof {
            use_type_invariant(self);
            lemma_views_well_formed(self.records@, self.assigned as int);
        }
        self.records.len()
    }

    /// The number of ids assigned so far, which is also the last id that was
    /// assigned. It counts the records that were created, whether they are
    /// still stored or not.
    pub fn assigned(&self) -> (count: i32)
        ensures
            count == self@.assigned,
            well_formed(self@),
    {
        proof {
            use_type_invariant(self);
            lemma_views_well_formed(self.records@, self.assigned as int);
        }
        self.assigned
    }

    /// Whether a record is stored for `email`.
    pub fn contains(&self, email: &str) -> (present: bool)
        ensures
            present == self@.records.contains_key(email@),
            well_formed(self@),
    {
        proof {
            use_type_invariant(self);
            lemma_views_well_formed(self.records@, self.assigned as int);
        }
        self.records.contains_key(email)
    }

    /// The record stored for `email`, if there is one. The store is left as
    /// it is.
    pub fn lookup(&self, email: &str) -> (record: Option<User>)
        ensures
            record_view(record) == found(self@, email@),
            well_formed(self@),
    {
        proof {
            use_type_invariant(self);
            lemma_views_well_formed(self.records@, self.assigned as int);
        }
        match self.records.get(email) {
            Some(user) => Some(user.clone()),
            None => None,
        }
    }

    /// Stores a new record for the request's email unless one is stored
    /// already. The new record takes the request's fields and the next id:
    /// one more than the number of ids assigned so far.
    ///
    /// The id does not depend on how many records are stored. A removal
    /// leaves the count of assigned ids as it is, so the id of a removed
    /// record is not given to a later one, and each id is larger than every
    /// id given out before it.
    ///
    /// A store that has assigned the last id has none for a new record, so
    /// the caller makes sure that the email is stored already or an id is
    /// left.
    pub fn insert_if_absent(&mut self, request: UpsertUser) -> (record: Option<User>)
        requires
            old(self)@.records.contains_key(request.email@) || old(self)@.assigned < LAST_ID,
        ensures
            record_view(record) == created(old(self)@, request@),
            final(self)@ == after_create(old(self)@, request@),
            well_formed(old(self)@),
            well_formed(final(self)@),
    {
        proof {
            use_type_invariant(&*self);
            lemma_views_well_formed(self.records@, self.assigned as int);
        }
        if self.records.contains_key(request.email.as_str()) {
            None
        } else {
            let id: i32 = self.assigned + 1;
            let user = User {
                id,
                email: request.email.clone(),
                password: request.password,
                fullname: request.fullname,
                role: request.role,
            };
            let stored = user.clone();
            let mut records = StringHashMap::new();
            std::mem::swap(&mut records, &mut self.records);
            self.assigned = id;
            records.insert(request.email, stored);
            self.records = records;
            proof {
                lemma_views_well_formed(self.records@, self.assigned as int);
                assert(self@ =~= after_create(old(self)@, request@));
            }
            Some(user)
        }
    }

    /// Replaces the record stored for `email` by one with the same id and
    /// email and the request's other fields. Nothing happens where no record
    /// is stored for `email`. No id is assigned.
    pub fn replace_if_present(&mut self, email: &str, request: UpsertUser) -> (record: Option<User>)
        ensures
            record_view(record) == updated(old(self)@, email@, request@),
            final(self)@ == after_update(old(self)@, email@, request@),
            well_formed(old(self)@),
            well_formed(final(self)@),
    {
        proof {
            use_type_invariant(&*self);
            lemma_views_well_formed(self.records@, self.assigned as int);
        }
        let current = match self.records.get(email) {
            Some(user) => Some((user.id, user.email.clone())),
            None => None,
        };
        match current {
            Some((id, key)) => {
                let user = User {
                    id,
                    email: key.clone(),
                    password: request.password,
                    fullname: request.fullname,
                    role: request.role,
                };
                let stored = user.clone();
                let mut records = StringHashMap::new();
                std::mem::swap(&mut records, &mut self.records);
                records.insert(key, stored);
                self.records = records;
                proof {
                    lemma_views_well_formed(self.records@, self.assigned as int);
                    assert(self@ =~= after_update(old(self)@, email@, request@));
                }
                Some(user)
            },
            None => None,
        }
    }

    /// Removes the record stored for `email` and returns it. Nothing happens
    /// where no record is stored for `email`. The count of assigned ids
    /// stays, so the id of the removed record is not given out again.
    pub fn remove_if_present(&mut self, email: &str) -> (record: Option<User>)
        ensures
            record_view(record) == found(old(self)@, email@),
            final(self)@ == after_delete(old(self)@, email@),
            well_formed(old(self)@),
            well_formed(final(self)@),
    {
        proof {
            use_type_invariant(&*self);
            lemma_views_well_formed(self.records@, self.assigned as int);
        }
        let current = match self.records.get(email) {
            Some(user) => Some(user.clone()),
            None => None,
        };
        if current.is_some() {
            let mut records = StringHashMap::new();
            std::mem::swap(&mut records, &mut self.records);
            records.remove(email);
            self.records = records;
            proof {
                lemma_views_well_formed(self.records@, self.assigned as int);
                assert(self@ =~= after_delete(old(self)@, email@));
            }
        }
        current
    }
}

} // verus!
