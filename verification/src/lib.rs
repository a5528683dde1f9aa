//! A proof-of-existence registry.
//!
//! An actor registers a claim on a piece of data, named by a bounded byte
//! fingerprint, at a point of logical time. The owner of a claim may later
//! revoke it or hand it to another actor. A claim is never removed: revoking
//! marks it inactive, and a fingerprint that was claimed once can never be
//! claimed anew.
//!
//! - [`record`] holds the data types: claim records, events and errors.
//! - [`rules`] is the life cycle of a single claim: what each operation makes
//!   of the record that is stored for a fingerprint.
//! - [`ledger`] is the mathematical model of the whole registry, with the
//!   guarantees that hold of every sequence of operations.
//! - [`pallet`] is the registry itself, an executable map from fingerprints to
//!   records that follows the model.

pub mod ledger;
pub mod pallet;
pub mod record;
pub mod rules;

pub use pallet::{Config, Pallet};
pub use record::{AccountId, BlockNumber, ClaimRecord, Error, Event};
