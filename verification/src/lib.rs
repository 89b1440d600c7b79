//! A verified record manager: a named collection of description records,
//! with create, list, update and delete operations over a document store.
//!
//! The store itself is modelled as a sequence of records; the four
//! operation handlers and the response normalizer are verified against
//! that model.

pub mod item;
pub mod response;
pub mod store;
pub mod handlers;
pub mod lemmas;
