//! An in-memory ticket store with stable identifiers, and the error model
//! that keeps failure detail away from callers.
//!
//! - [`slots`] is the mathematical model of the store and of a listing.
//! - [`history`] states what holds of every sequence of operations: ids are
//!   dense and never reused, a deleted ticket stays deleted, and a listing
//!   holds exactly what was created and not deleted.
//! - [`model`] holds the tickets, the store, and the shared handle on it.
//! - [`lock`] holds the calls into `std::sync` that the handle rests on.
//! - [`error`] holds the error kinds and their one client-visible rendering.
//! - [`login`] and [`hello`] hold the decisions behind the login and hello
//!   routes.

pub mod error;
pub mod hello;
pub mod history;
pub mod lock;
pub mod login;
pub mod model;
pub mod slots;
