//! An in-memory catalogue of books, keyed by a numeric identifier, together
//! with the request handlers that create, list, read, update and delete its
//! entries. Every handler is a function from the catalogue and its input to a
//! response envelope; what each one returns and how it changes the catalogue
//! is stated in its contract and proved.

pub mod handlers;
pub mod laws;
pub mod models;
pub mod store;
pub mod text;
