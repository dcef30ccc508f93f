//! Accounts, bearer tokens, and owner-scoped notes and todo lists.
//!
//! A user registers and signs in, and from then on manages notes that may
//! refer to todo lists. Every store operation is filtered by the owner of the
//! document it touches, so one account can neither observe nor change what
//! belongs to another: to everyone but its owner, a document is absent.
//!
//! - [`auth`] issues and verifies tokens, hashes passwords, and resolves the
//!   caller of a request.
//! - [`repository`] holds the three stores, the collections that they ask of
//!   a document store, and collections that live in memory.
//! - [`services`] is what the service does for a caller, and [`routes`] the
//!   same as handlers that take an authenticated caller and a request body.
//! - [`models`] and [`error`] hold the documents and the failures.
//!
//! The library reads no clock and opens no connection. The time is an
//! argument, and a document store is whatever implements the collection
//! traits.

pub mod auth;
pub mod error;
pub mod models;
pub mod repository;
pub mod routes;
pub mod services;
