//! The decision core of a small service that tracks films and series.
//!
//! The service answers seven kinds of request: a health check, and the
//! listing, lookup, creation, removal, update and bulk generation of
//! entries that rest in a document store. This library holds what the
//! service decides. It does no input or output of its own: a handler is a
//! walk of steps, each of which either answers the request or names one
//! command for the store and the state from which the walk goes on once the
//! store has answered. Whoever runs the service carries the commands out
//! and hands the answers back.
//!
//! - `rating` and `model` hold the entry and the rules that every stored
//!   entry meets.
//! - `response` holds the envelopes and the answer of a handler.
//! - `store` holds the commands and answers of the store, and says what
//!   each command does to a collection of entries.
//! - `handler` holds the steps of each handler.
//! - `ident` and `random` hold what comes from outside: identifiers and
//!   chance.
//! - `memory` is a store in memory, `service` walks a request to its end
//!   against it, and `laws` states what then holds of every request.

pub mod rating;
pub mod model;
pub mod text;
pub mod ident;
pub mod random;
pub mod state;
pub mod response;
pub mod store;
pub mod memory;
pub mod handler;
pub mod service;
pub mod laws;
