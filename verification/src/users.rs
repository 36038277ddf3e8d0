//! User records, the store that holds them and the operations on it.

pub mod lock;
pub mod model;
pub mod pattern;
pub mod records;
pub mod router;
pub mod service;
pub mod store;
