//! What a request handler answers: a status code and a body for each outcome
//! of the four operations.

use vstd::prelude::*;
use crate::users::model::{is_email, validate_email, UpsertUser, UpsertUserView, User, UserView};
use crate::users::service::{
    create_user, delete_user_by_email, get_user_by_email, update_user_by_email, SharedUserStore,
    StoreError,
};
use crate::users::store::record_view;

verus! {

/// 200 OK.
pub const STATUS_OK: u16 = 200;

/// 201 Created.
pub const STATUS_CREATED: u16 = 201;

/// 208 Already Reported.
pub const STATUS_ALREADY_REPORTED: u16 = 208;

/// 404 Not Found.
pub const STATUS_NOT_FOUND: u16 = 404;

/// 422 Unprocessable Entity.
pub const STATUS_UNPROCESSABLE_ENTITY: u16 = 422;

/// The error text for a request whose email is malformed.
pub const INVALID_EMAIL: &'static str = "Invalid input for field 'email'";

/// The error text for a create whose email is taken.
pub const ALREADY_EXISTS: &'static str = "User with associated email already exists!";

/// The error text for an email under which nothing is stored.
pub const NOT_FOUND: &'static str = "User not found";

/// The message that confirms a delete.
pub const DELETED: &'static str = "User has been deleted";

/// The body of a reply.
#[derive(Debug)]
pub enum Body {
    /// A record, to be sent as it is.
    Record(User),
    /// A text to be sent under the key `message`.
    Message(&'static str),
    /// A text to be sent under the key `error`.
    Error(&'static str),
}

/// What a [`Body`] holds, as mathematical values.
pub enum BodyView {
    Record(UserView),
    Message(Seq<char>),
    Error(Seq<char>),
}

/// The answer to one request.
#[derive(Debug)]
pub struct Reply {
    pub status: u16,
    pub body: Body,
}

/// What a [`Reply`] holds, as mathematical values.
pub struct ReplyView {
    pub status: int,
    pub body: BodyView,
}

impl View for Body {
    type V = BodyView;

    open spec fn view(&self) -> BodyView {
        match *self {
            Body::Record(user) => BodyView::Record(user@),
            Body::Message(text) => BodyView::Message(text@),
            Body::Error(text) => BodyView::Error(text@),
        }
    }
}

impl View for Reply {
    type V = ReplyView;

    open spec fn view(&self) -> ReplyView {
        ReplyView { status: self.status as int, body: self.body@ }
    }
}

/// 201 with the new record: the reply to a create that succeeded.
pub open spec fn created_reply(record: UserView) -> ReplyView {
    ReplyView { status: STATUS_CREATED as int, body: BodyView::Record(record) }
}

/// 208 with an error text: the reply to a create whose email is taken.
pub open spec fn conflict_reply() -> ReplyView {
    ReplyView { status: STATUS_ALREADY_REPORTED as int, body: BodyView::Error(ALREADY_EXISTS@) }
}

/// 422 with an error text: the reply to a create whose email is malformed.
pub open spec fn invalid_email_reply() -> ReplyView {
    ReplyView {
        status: STATUS_UNPROCESSABLE_ENTITY as int,
        body: BodyView::Error(INVALID_EMAIL@),
    }
}

/// 200 with the record: the reply to a read or an update that succeeded.
pub open spec fn found_reply(record: UserView) -> ReplyView {
    ReplyView { status: STATUS_OK as int, body: BodyView::Record(record) }
}

/// 200 with a confirmation: the reply to a delete that succeeded.
pub open spec fn deleted_reply() -> ReplyView {
    ReplyView { status: STATUS_OK as int, body: BodyView::Message(DELETED@) }
}

/// 404 with an error text: the reply where nothing is stored for the email.
pub open spec fn not_found_reply() -> ReplyView {
    ReplyView { status: STATUS_NOT_FOUND as int, body: BodyView::Error(NOT_FOUND@) }
}

/// The reply to a create with the given outcome.
pub open spec fn create_reply(outcome: Option<UserView>) -> ReplyView {
    match outcome {
        Some(record) => created_reply(record),
        None => conflict_reply(),
    }
}

/// The reply to a read or an update with the given outcome.
pub open spec fn record_reply(outcome: Option<UserView>) -> ReplyView {
    match outcome {
        Some(record) => found_reply(record),
        None => not_found_reply(),
    }
}

/// The reply to a delete with the given outcome.
pub open spec fn delete_reply(outcome: Option<UserView>) -> ReplyView {
    match outcome {
        Some(_) => deleted_reply(),
        None => not_found_reply(),
    }
}

/// Answers a create that had the given outcome.
pub fn answer_create(outcome: Option<User>) -> (reply: Reply)
    ensures
        reply@ == create_reply(record_view(outcome)),
{
    match outcome {
        Some(user) => Reply { status: STATUS_CREATED, body: Body::Record(user) },
        None => Reply { status: STATUS_ALREADY_REPORTED, body: Body::Error(ALREADY_EXISTS) },
    }
}

/// Answers a read or an update that had the given outcome.
pub fn answer_record(outcome: Option<User>) -> (reply: Reply)
    ensures
        reply@ == record_reply(record_view(outcome)),
{
    match outcome {
        Some(user) => Reply { status: STATUS_OK, body: Body::Record(user) },
        None => Reply { status: STATUS_NOT_FOUND, body: Body::Error(NOT_FOUND) },
    }
}

/// Answers a delete that had the given outcome.
pub fn answer_delete(outcome: Option<User>) -> (reply: Reply)
    ensures
        reply@ == delete_reply(record_view(outcome)),
{
    match outcome {
        Some(_) => Reply { status: STATUS_OK, body: Body::Message(DELETED) },
        None => Reply { status: STATUS_NOT_FOUND, body: Body::Error(NOT_FOUND) },
    }
}

/// Whether `reply` answers a create from `request` whose email was found
/// `valid` or not: 422 where it was not; else 208, or 201 with a record that
/// holds the request's fields under an id from 1.
pub open spec fn answers_create(reply: ReplyView, request: UpsertUserView, valid: bool) -> bool {
    if !valid {
        reply == invalid_email_reply()
    } else {
        match reply.body {
            BodyView::Record(record) => {
                &&& reply == created_reply(record)
                &&& 1 <= record.id
                &&& record.email == request.email
                &&& record.password == request.password
                &&& record.fullname == request.fullname
                &&& record.role == request.role
            },
            _ => reply == conflict_reply(),
        }
    }
}

/// Whether `reply` answers a read of `email`: 404, or 200 with a record of
/// that email.
pub open spec fn answers_read(reply: ReplyView, email: Seq<char>) -> bool {
    match reply.body {
        BodyView::Record(record) => reply == found_reply(record) && record.email == email,
        _ => reply == not_found_reply(),
    }
}

/// Whether `reply` answers an update of `email` from `request`: 404, or 200
/// with a record of that email that holds the request's password, full name
/// and role.
pub open spec fn answers_update(
    reply: ReplyView,
    email: Seq<char>,
    request: UpsertUserView,
) -> bool {
    match reply.body {
        BodyView::Record(record) => {
            &&& reply == found_reply(record)
            &&& record.email == email
            &&& record.password == request.password
            &&& record.fullname == request.fullname
            &&& record.role == request.role
        },
        _ => reply == not_found_reply(),
    }
}

/// Whether `reply` answers a delete: 404, or 200 with the confirmation.
pub open spec fn answers_delete(reply: ReplyView) -> bool {
    reply == deleted_reply() || reply == not_found_reply()
}

/// Handles a create whose email the caller has found `valid` or not. A
/// request that is not valid is refused with 422 before the store is
/// touched, so the refusal is owed whatever state the store is in.
pub fn create_if_valid(store: &SharedUserStore, request: UpsertUser, valid: bool) -> (outcome:
    Result<Reply, StoreError>)
    ensures
        outcome matches Ok(reply) ==> answers_create(reply@, request@, valid),
        !valid ==> outcome is Ok,
{
    if !valid {
        return Ok(Reply { status: STATUS_UNPROCESSABLE_ENTITY, body: Body::Error(INVALID_EMAIL) });
    }
    match create_user(request, store) {
        Ok(created) => Ok(answer_create(created)),
        Err(error) => Err(error),
    }
}

/// Handles a create: checks the form of the request's email, then creates
/// the record.
pub fn create_user_handler(store: &SharedUserStore, request: UpsertUser) -> (outcome: Result<
    Reply,
    StoreError,
>)
    ensures
        outcome matches Ok(reply) ==> answers_create(reply@, request@, is_email(request.email@)),
        !is_email(request.email@) ==> outcome is Ok,
{
    let valid = validate_email(&request);
    create_if_valid(store, request, valid)
}

/// Handles a read of `email`.
pub fn get_user_handler(store: &SharedUserStore, email: String) -> (outcome: Result<
    Reply,
    StoreError,
>)
    ensures
        outcome matches Ok(reply) ==> answers_read(reply@, email@),
        outcome matches Err(error) ==> error == StoreError::LockPoisoned,
{
    match get_user_by_email(&email, store) {
        Ok(read) => Ok(answer_record(read)),
        Err(error) => Err(error),
    }
}

/// Handles an update of `email`.
pub fn update_user_handler(store: &SharedUserStore, email: String, request: UpsertUser) -> (outcome:
    Result<Reply, StoreError>)
    ensures
        outcome matches Ok(reply) ==> answers_update(reply@, email@, request@),
        outcome matches Err(error) ==> error == StoreError::LockPoisoned,
{
    match update_user_by_email(&email, request, store) {
        Ok(updated) => Ok(answer_record(updated)),
        Err(error) => Err(error),
    }
}

/// Handles a delete of `email`.
pub fn delete_user_handler(store: &SharedUserStore, email: String) -> (outcome: Result<
    Reply,
    StoreError,
>)
    ensures
        outcome matches Ok(reply) ==> answers_delete(reply@),
        outcome matches Err(error) ==> error == StoreError::LockPoisoned,
{
    match delete_user_by_email(&email, store) {
        Ok(deleted) => Ok(answer_delete(deleted)),
        Err(error) => Err(error),
    }
}

} // verus!
