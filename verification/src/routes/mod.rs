//! The request handlers, as functions from an authenticated caller and a
//! request body to an answer. The transport layer around them is not part of
//! this library.

pub mod auth;
pub mod notes;
pub mod todos;
