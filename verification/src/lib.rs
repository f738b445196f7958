//! A small, read-only roster of shinobi: six characters, their villages,
//! elemental affinities and friendships, with lookups by id and Relay-style
//! cursor pagination over the roster.
//!
//! The roster lives in a [`slab::Slab`]; everything that is said about the
//! slab itself is collected in [`table`] and is assumed rather than proved.

pub mod character;
pub mod connection;
pub mod model;
pub mod store;
pub mod table;
