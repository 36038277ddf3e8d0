//! The record of a user and the payload from which one is created or updated.

use vstd::prelude::*;
use regex::Regex;
use crate::users::pattern::{compiled, matches_in};

verus! {

/// The pattern of an email address: a local part of letters, digits and
/// `._%+-`, an `@`, and a domain of dot-separated labels that ends in a label
/// of two or more letters.
pub const EMAIL_PATTERN: &'static str =
    r"^[A-Za-z0-9._%+-]+@[A-Za-z0-9]([A-Za-z0-9-]*[A-Za-z0-9])?(\.[A-Za-z0-9]([A-Za-z0-9-]*[A-Za-z0-9])?)*\.[A-Za-z]{2,}$";

/// Whether `email` has the form of an email address: the pattern compiles
/// and matches it.
pub open spec fn is_email(email: Seq<char>) -> bool {
    match compiled(EMAIL_PATTERN@) {
        Some(regex) => matches_in(regex, email),
        None => false,
    }
}

/// What a [`User`] holds, as mathematical values.
pub struct UserView {
    pub id: int,
    pub email: Seq<char>,
    pub password: Seq<char>,
    pub fullname: Seq<char>,
    pub role: Seq<char>,
}

/// What an [`UpsertUser`] holds, as mathematical values.
pub struct UpsertUserView {
    pub email: Seq<char>,
    pub password: Seq<char>,
    pub fullname: Seq<char>,
    pub role: Seq<char>,
}

/// One registered user. The email is the record's key; the id is assigned
/// by the store when the record is created.
#[derive(Debug)]
pub struct User {
    pub id: i32,
    pub email: String,
    pub password: String,
    pub fullname: String,
    pub role: String,
}

/// The payload of a create or update request. It carries no id.
#[derive(Debug)]
pub struct UpsertUser {
    pub email: String,
    pub password: String,
    pub fullname: String,
    pub role: String,
}

impl View for User {
    type V = UserView;

    open spec fn view(&self) -> UserView {
        UserView {
            id: self.id as int,
            email: self.email@,
            password: self.password@,
            fullname: self.fullname@,
            role: self.role@,
        }
    }
}

impl View for UpsertUser {
    type V = UpsertUserView;

    open spec fn view(&self) -> UpsertUserView {
        UpsertUserView {
            email: self.email@,
            password: self.password@,
            fullname: self.fullname@,
            role: self.role@,
        }
    }
}

impl UpsertUser {
    /// Whether the request's email has the form of an email address.
    pub fn is_valid_email(&self) -> (valid: bool)
        ensures
            valid == is_email(self.email@),
    {
        match Regex::new(EMAIL_PATTERN) {
            Ok(regex) => regex.is_match(self.email.as_str()),
            Err(_) => false,
        }
    }
}

/// Whether the email of `body` has the form of an email address.
pub fn validate_email(body: &UpsertUser) -> (valid: bool)
    ensures
        valid == is_email(body.email@),
{
    body.is_valid_email()
}

impl Clone for User {
    fn clone(&self) -> (copy: Self)
        ensures
            copy@ == self@,
    {
        User {
            id: self.id,
            email: self.email.clone(),
            password: self.password.clone(),
            fullname: self.fullname.clone(),
            role: self.role.clone(),
        }
    }
}

impl Clone for UpsertUser {
    fn clone(&self) -> (copy: Self)
        ensures
            copy@ == self@,
    {
        UpsertUser {
            email: self.email.clone(),
            password: self.password.clone(),
            fullname: self.fullname.clone(),
            role: self.role.clone(),
        }
    }
}

} // verus!
