//! What the service does for a caller, on top of the stores.

pub mod note_service;
pub mod todo_service;
pub mod user_service;
