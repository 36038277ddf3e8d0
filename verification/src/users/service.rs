//! The four operations on a store that many threads share.
//!
//! Each operation takes the store's lock, works on the store and releases
//! the lock before it returns, so the operations of all threads take effect
//! one after another.

use vstd::prelude::*;
use std::sync::Mutex;
use crate::users::lock::{locked, locked_mut};
use crate::users::model::{UpsertUser, User};
use crate::users::records::{after_create, created, well_formed};
use crate::users::store::{record_view, UserStore, LAST_ID};

verus! {

/// Why an operation could not be carried out at all. Neither is an answer
/// about a record: a caller stops serving on either.
#[derive(Debug, Clone, Copy, PartialEq, Eq, Structural)]
pub enum StoreError {
    /// A thread panicked while it held the store's lock.
    LockPoisoned,
    /// The store has assigned the last id, so none is left for a new record.
    IdsExhausted,
}

/// A store behind a lock. The operations of this module are the only way to
/// its records.
pub struct SharedUserStore {
    inner: Mutex<UserStore>,
}

impl SharedUserStore {
    /// An empty store.
    pub fn new() -> (shared: Self) {
        SharedUserStore { inner: Mutex::new(UserStore::new()) }
    }

    /// The number of records at the moment the lock was held.
    pub fn len(&self) -> (count: Result<usize, StoreError>)
        ensures
            count matches Err(error) ==> error == StoreError::LockPoisoned,
    {
        match self.inner.lock() {
            Ok(guard) => Ok(locked(&guard).len()),
            Err(_) => Err(StoreError::LockPoisoned),
        }
    }
}

/// Creates a record in `store` unless the email is taken. Where the email is
/// new and the store has no id left, nothing is stored and the error says so.
pub fn create_in(store: &mut UserStore, request: UpsertUser) -> (outcome: Result<
    Option<User>,
    StoreError,
>)
    ensures
        well_formed(old(store)@),
        well_formed(final(store)@),
        final(store)@ == (if outcome is Ok {
            after_create(old(store)@, request@)
        } else {
            old(store)@
        }),
        match outcome {
            Ok(record) => record_view(record) == created(old(store)@, request@),
            Err(error) => error == StoreError::IdsExhausted,
        },
        outcome is Err <==> {
            &&& !old(store)@.records.contains_key(request.email@)
            &&& old(store)@.assigned >= LAST_ID
        },
{
    if store.contains(request.email.as_str()) || store.assigned() < LAST_ID {
        Ok(store.insert_if_absent(request))
    } else {
        Err(StoreError::IdsExhausted)
    }
}

/// Creates a record from `request` unless its email is taken.
pub fn create_user(request: UpsertUser, store: &SharedUserStore) -> (outcome: Result<
    Option<User>,
    StoreError,
>)
    ensures
        outcome matches Ok(Some(user)) ==> {
            &&& 1 <= user.id
            &&& user.email@ == request.email@
            &&& user.password@ == request.password@
            &&& user.fullname@ == request.fullname@
            &&& user.role@ == request.role@
        },
{
    match store.inner.lock() {
        Ok(mut guard) => create_in(locked_mut(&mut guard), request),
        Err(_) => Err(StoreError::LockPoisoned),
    }
}

/// Reads the record stored for `email`.
pub fn get_user_by_email(email: &String, store: &SharedUserStore) -> (outcome: Result<
    Option<User>,
    StoreError,
>)
    ensures
        outcome matches Ok(Some(user)) ==> 1 <= user.id && user.email@ == email@,
        outcome matches Err(error) ==> error == StoreError::LockPoisoned,
{
    match store.inner.lock() {
        Ok(guard) => Ok(locked(&guard).lookup(email.as_str())),
        Err(_) => Err(StoreError::LockPoisoned),
    }
}

/// Replaces the password, full name and role of the record stored for
/// `email` by those of `request`.
pub fn update_user_by_email(
    email: &String,
    request: UpsertUser,
    store: &SharedUserStore,
) -> (outcome: Result<Option<User>, StoreError>)
    ensures
        outcome matches Ok(Some(user)) ==> {
            &&& 1 <= user.id
            &&& user.email@ == email@
            &&& user.password@ == request.password@
            &&& user.fullname@ == request.fullname@
            &&& user.role@ == request.role@
        },
        outcome matches Err(error) ==> error == StoreError::LockPoisoned,
{
    match store.inner.lock() {
        Ok(mut guard) => Ok(locked_mut(&mut guard).replace_if_present(email.as_str(), request)),
        Err(_) => Err(StoreError::LockPoisoned),
    }
}

/// Removes the record stored for `email`.
pub fn delete_user_by_email(email: &String, store: &SharedUserStore) -> (outcome: Result<
    Option<User>,
    StoreError,
>)
    ensures
        outcome matches Ok(Some(user)) ==> 1 <= user.id && user.email@ == email@,
        outcome matches Err(error) ==> error == StoreError::LockPoisoned,
{
    match store.inner.lock() {
        Ok(mut guard) => Ok(locked_mut(&mut guard).remove_if_present(email.as_str())),
        Err(_) => Err(StoreError::LockPoisoned),
    }
}

} // verus!
