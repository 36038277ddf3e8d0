//! An in-memory store of user records keyed by email address, with the
//! create, read, update and delete operations that a request handler needs.
//!
//! The store itself is [`users::store::UserStore`]; what its operations do is
//! stated over the mathematical model of [`users::records`], where the laws
//! of the store are proved. [`users::service`] puts a store behind a lock for
//! callers that share it between threads, and [`users::router`] decides what
//! a handler answers. The two modules [`users::lock`] and [`users::pattern`]
//! hold what is assumed, not proved, of the standard library's mutex and of
//! the `regex` crate.

pub mod users;
